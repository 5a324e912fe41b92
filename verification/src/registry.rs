//! The set of live outputs.
//!
//! The registry is valued as a map from registry names to outputs: the order
//! in which outputs are kept has no meaning.

use crate::error::Inconsistency;
use crate::output::Output;
use crate::output::OutputView;
use crate::output::Session;
use crate::output::SessionView;
use vstd::prelude::*;

verus! {

/// Mathematical value of a [`Registry`]: the live outputs by registry name.
pub type Outputs = Map<u32, OutputView>;

/// Whether some live output has this handle.
pub open spec fn has_handle(outputs: Outputs, handle: u32) -> bool {
    exists|n: u32| #[trigger] outputs.dom().contains(n) && outputs[n].handle == handle
}

/// The registry name of the live output with this handle.
pub open spec fn handle_owner(outputs: Outputs, handle: u32) -> u32 {
    choose|n: u32| #[trigger] outputs.dom().contains(n) && outputs[n].handle == handle
}

/// Whether this output has a session with this handle.
pub open spec fn holds_session(output: OutputView, layout: u32) -> bool {
    output.session matches Some(session) && session.handle == layout
}

/// Whether some live output has a session with this handle.
pub open spec fn has_session(outputs: Outputs, layout: u32) -> bool {
    exists|n: u32| #[trigger] outputs.dom().contains(n) && holds_session(outputs[n], layout)
}

/// The registry name of the live output whose session has this handle.
pub open spec fn session_owner(outputs: Outputs, layout: u32) -> u32 {
    choose|n: u32| #[trigger] outputs.dom().contains(n) && holds_session(outputs[n], layout)
}

/// Validity of a registry's value: every output is kept under its own
/// registry name, a session is held under the name that its output has, and
/// no two live outputs share a handle or a session handle.
pub open spec fn outputs_wf(outputs: Outputs) -> bool {
    &&& outputs.dom().finite()
    &&& forall|n: u32| #[trigger] outputs.dom().contains(n) ==> outputs[n].reg_name == n
    &&& forall|n: u32| #[trigger]
        outputs.dom().contains(n) && outputs[n].session is Some ==> outputs[n].name == Some(
            outputs[n].session->0.output_name,
        )
    &&& forall|a: u32, b: u32|
        #![trigger outputs.dom().contains(a), outputs.dom().contains(b)]
        outputs.dom().contains(a) && outputs.dom().contains(b) && outputs[a].handle
            == outputs[b].handle ==> a == b
    &&& forall|a: u32, b: u32, layout: u32|
        #![trigger holds_session(outputs[a], layout), holds_session(outputs[b], layout)]
        outputs.dom().contains(a) && outputs.dom().contains(b) && holds_session(
            outputs[a],
            layout,
        ) && holds_session(outputs[b], layout) ==> a == b
}

/// The registry after an output was bound, or why the binding does not fit:
/// its registry name or its handle is already that of a live output.
pub open spec fn add_spec(outputs: Outputs, reg_name: u32, handle: u32, version: u32) -> Result<
    Outputs,
    Inconsistency,
> {
    if outputs.dom().contains(reg_name) {
        Err(Inconsistency::DuplicateName)
    } else if has_handle(outputs, handle) {
        Err(Inconsistency::DuplicateHandle)
    } else {
        Ok(outputs.insert(reg_name, OutputView::bound(reg_name, handle, version)))
    }
}

/// The registry after the output with this registry name was removed, and
/// that output; or the rejection of a name that no live output has.
pub open spec fn remove_spec(outputs: Outputs, reg_name: u32) -> Result<
    (Outputs, OutputView),
    Inconsistency,
> {
    if outputs.dom().contains(reg_name) {
        Ok((outputs.remove(reg_name), outputs[reg_name]))
    } else {
        Err(Inconsistency::UnknownName)
    }
}

/// What the announcement of an output's name does: for an output that has a
/// session, nothing; for any other live output, the name is recorded and a
/// session is wanted (the flag).
pub open spec fn name_spec(outputs: Outputs, handle: u32, name: Seq<char>) -> Result<
    (Outputs, bool),
    Inconsistency,
> {
    if !has_handle(outputs, handle) {
        Err(Inconsistency::UnknownOutput)
    } else {
        let n = handle_owner(outputs, handle);
        if outputs[n].session is Some {
            Ok((outputs, false))
        } else {
            Ok((outputs.insert(n, OutputView { name: Some(name), ..outputs[n] }), true))
        }
    }
}

/// The registry after a session was opened for an output, or why the
/// session does not fit: the output is not live, it has a session already or
/// no name yet, or the session's handle is that of another session.
pub open spec fn attach_spec(outputs: Outputs, handle: u32, layout: u32) -> Result<
    Outputs,
    Inconsistency,
> {
    if !has_handle(outputs, handle) {
        Err(Inconsistency::UnknownOutput)
    } else {
        let n = handle_owner(outputs, handle);
        if outputs[n].session is Some || outputs[n].name is None {
            Err(Inconsistency::UnrequestedSession)
        } else if has_session(outputs, layout) {
            Err(Inconsistency::DuplicateHandle)
        } else {
            Ok(
                outputs.insert(
                    n,
                    OutputView {
                        session: Some(
                            SessionView { handle: layout, output_name: outputs[n].name->0 },
                        ),
                        ..outputs[n]
                    },
                ),
            )
        }
    }
}

/// Whether no two outputs of the sequence share a registry name.
spec fn distinct_names(s: Seq<Output>) -> bool {
    forall|i: int, j: int|
        #![trigger s[i], s[j]]
        0 <= i < j < s.len() ==> s[i].reg_name != s[j].reg_name
}

/// Whether an output of the sequence has this registry name.
spec fn has_name(s: Seq<Output>, n: u32) -> bool {
    exists|i: int| 0 <= i < s.len() && (#[trigger] s[i]).reg_name == n
}

/// The place of the output with this registry name.
spec fn place_of(s: Seq<Output>, n: u32) -> int {
    choose|i: int| 0 <= i < s.len() && (#[trigger] s[i]).reg_name == n
}

/// The outputs of a sequence by their registry names.
spec fn outputs_of(s: Seq<Output>) -> Outputs {
    Map::new(|n: u32| has_name(s, n), |n: u32| s[place_of(s, n)]@)
}

/// In a sequence without repeated names each output is found under its name.
proof fn lemma_place(s: Seq<Output>, i: int)
    requires
        distinct_names(s),
        0 <= i < s.len(),
    ensures
        has_name(s, s[i].reg_name),
        place_of(s, s[i].reg_name) == i,
        outputs_of(s).dom().contains(s[i].reg_name),
        outputs_of(s)[s[i].reg_name] == s[i]@,
{
    let n = s[i].reg_name;
    assert(has_name(s, n));
    let j = place_of(s, n);
    assert(0 <= j < s.len() && s[j].reg_name == n);
    if j < i {
        assert(s[j].reg_name != s[i].reg_name);
    } else if i < j {
        assert(s[i].reg_name != s[j].reg_name);
    }
}

/// Appending an output under a new name inserts it into the map.
proof fn lemma_push(s: Seq<Output>, o: Output)
    requires
        distinct_names(s),
        !has_name(s, o.reg_name),
    ensures
        distinct_names(s.push(o)),
        outputs_of(s.push(o)) == outputs_of(s).insert(o.reg_name, o@),
{
    let t = s.push(o);
    assert forall|i: int, j: int| 0 <= i < j < t.len() implies t[i].reg_name != t[j].reg_name by {
        if j == s.len() {
            assert(s[i].reg_name != o.reg_name);
        } else {
            assert(s[i].reg_name != s[j].reg_name);
        }
    }
    assert forall|n: u32| has_name(t, n) <==> (has_name(s, n) || n == o.reg_name) by {
        if has_name(t, n) {
            let i = place_of(t, n);
            if i < s.len() {
                assert(s[i].reg_name == n);
            }
        }
        if has_name(s, n) {
            let i = place_of(s, n);
            assert(t[i].reg_name == n);
        }
        if n == o.reg_name {
            assert(t[s.len() as int].reg_name == n);
        }
    }
    assert forall|n: u32| has_name(t, n) implies outputs_of(t)[n] == outputs_of(s).insert(
        o.reg_name,
        o@,
    )[n] by {
        if n == o.reg_name {
            lemma_place(t, s.len() as int);
        } else {
            let i = place_of(s, n);
            lemma_place(t, i);
        }
    }
    assert(outputs_of(t) =~= outputs_of(s).insert(o.reg_name, o@));
}

/// Moving the last output into the place of another removes the latter from
/// the map.
proof fn lemma_swap_remove(s: Seq<Output>, i: int)
    requires
        distinct_names(s),
        0 <= i < s.len(),
    ensures
        distinct_names(s.update(i, s.last()).drop_last()),
        outputs_of(s.update(i, s.last()).drop_last()) == outputs_of(s).remove(s[i].reg_name),
{
    let t = s.update(i, s.last()).drop_last();
    let last = s.len() - 1;
    assert forall|a: int| 0 <= a < t.len() implies t[a] == s[if a == i { last } else { a }] by {}
    assert forall|a: int, b: int| 0 <= a < b < t.len() implies t[a].reg_name != t[b].reg_name by {
        let a2 = if a == i { last } else { a };
        let b2 = if b == i { last } else { b };
        if a2 < b2 {
            assert(s[a2].reg_name != s[b2].reg_name);
        } else {
            assert(s[b2].reg_name != s[a2].reg_name);
        }
    }
    let removed = s[i].reg_name;
    assert forall|n: u32| has_name(t, n) <==> (has_name(s, n) && n != removed) by {
        if has_name(t, n) {
            let a = place_of(t, n);
            let a2 = if a == i { last } else { a };
            assert(s[a2].reg_name == n);
            if a2 < i {
                assert(s[a2].reg_name != s[i].reg_name);
            } else {
                assert(s[i].reg_name != s[a2].reg_name);
            }
        }
        if has_name(s, n) && n != removed {
            let a = place_of(s, n);
            let a2 = if a == last { i } else { a };
            assert(t[a2].reg_name == n);
        }
    }
    assert forall|n: u32| has_name(t, n) implies outputs_of(t)[n] == outputs_of(s)[n] by {
        let a = place_of(t, n);
        let a2 = if a == i { last } else { a };
        lemma_place(t, a);
        lemma_place(s, a2);
    }
    assert(outputs_of(t) =~= outputs_of(s).remove(removed));
}

/// A live output with this handle is the owner of the handle.
proof fn lemma_handle_found(s: Seq<Output>, i: int)
    requires
        distinct_names(s),
        outputs_wf(outputs_of(s)),
        0 <= i < s.len(),
    ensures
        has_handle(outputs_of(s), s[i].handle),
        handle_owner(outputs_of(s), s[i].handle) == s[i].reg_name,
{
    lemma_place(s, i);
    let m = outputs_of(s);
    let n = handle_owner(m, s[i].handle);
    assert(m.dom().contains(n) && m.dom().contains(s[i].reg_name));
}

/// A handle that no output of the sequence has is not in the map.
proof fn lemma_handle_missing(s: Seq<Output>, handle: u32)
    requires
        distinct_names(s),
        forall|i: int| 0 <= i < s.len() ==> (#[trigger] s[i]).handle != handle,
    ensures
        !has_handle(outputs_of(s), handle),
{
    let m = outputs_of(s);
    if has_handle(m, handle) {
        let n = handle_owner(m, handle);
        let i = place_of(s, n);
        lemma_place(s, i);
    }
}

/// A live output with a session is the owner of the session's handle.
proof fn lemma_session_found(s: Seq<Output>, i: int, layout: u32)
    requires
        distinct_names(s),
        outputs_wf(outputs_of(s)),
        0 <= i < s.len(),
        holds_session(s[i]@, layout),
    ensures
        has_session(outputs_of(s), layout),
        session_owner(outputs_of(s), layout) == s[i].reg_name,
{
    lemma_place(s, i);
    let m = outputs_of(s);
    let n = session_owner(m, layout);
    assert(m.dom().contains(n) && m.dom().contains(s[i].reg_name));
    assert(holds_session(m[n], layout) && holds_session(m[s[i].reg_name], layout));
}

/// A session handle that no output of the sequence holds is not in the map.
proof fn lemma_session_missing(s: Seq<Output>, layout: u32)
    requires
        distinct_names(s),
        forall|i: int| 0 <= i < s.len() ==> !holds_session((#[trigger] s[i])@, layout),
    ensures
        !has_session(outputs_of(s), layout),
{
    let m = outputs_of(s);
    if has_session(m, layout) {
        let n = session_owner(m, layout);
        let i = place_of(s, n);
        lemma_place(s, i);
    }
}

/// The set of live outputs.
pub struct Registry {
    outputs: Vec<Output>,
}

impl View for Registry {
    type V = Outputs;

    closed spec fn view(&self) -> Outputs {
        outputs_of(self.outputs@)
    }
}

impl Registry {
    /// Whether each output is kept once.
    pub closed spec fn kept_once(&self) -> bool {
        distinct_names(self.outputs@)
    }

    /// Validity of a registry.
    pub open spec fn wf(&self) -> bool {
        self.kept_once() && outputs_wf(self@)
    }

    /// The registry without outputs.
    pub fn new() -> (registry: Registry)
        ensures
            registry.wf(),
            registry@ == Map::<u32, OutputView>::empty(),
    {
        let registry = Registry { outputs: Vec::new() };
        assert(registry@ =~= Map::<u32, OutputView>::empty());
        registry
    }

    fn place_of_name(&self, reg_name: u32) -> (place: Option<usize>)
        ensures
            match place {
                Some(i) => i < self.outputs@.len() && self.outputs@[i as int].reg_name == reg_name,
                None => !has_name(self.outputs@, reg_name),
            },
    {
        let mut i: usize = 0;
        while i < self.outputs.len()
            invariant
                i <= self.outputs@.len(),
                forall|j: int| 0 <= j < i ==> (#[trigger] self.outputs@[j]).reg_name != reg_name,
            decreases self.outputs@.len() - i,
        {
            if self.outputs[i].reg_name == reg_name {
                return Some(i);
            }
            i = i + 1;
        }
        None
    }

    fn place_of_handle(&self, handle: u32) -> (place: Option<usize>)
        ensures
            match place {
                Some(i) => i < self.outputs@.len() && self.outputs@[i as int].handle == handle,
                None => forall|j: int|
                    0 <= j < self.outputs@.len() ==> (#[trigger] self.outputs@[j]).handle != handle,
            },
    {
        let mut i: usize = 0;
        while i < self.outputs.len()
            invariant
                i <= self.outputs@.len(),
                forall|j: int| 0 <= j < i ==> (#[trigger] self.outputs@[j]).handle != handle,
            decreases self.outputs@.len() - i,
        {
            if self.outputs[i].handle == handle {
                return Some(i);
            }
            i = i + 1;
        }
        None
    }

    fn place_of_session(&self, layout: u32) -> (place: Option<usize>)
        ensures
            match place {
                Some(i) => i < self.outputs@.len() && holds_session(self.outputs@[i as int]@, layout),
                None => forall|j: int|
                    0 <= j < self.outputs@.len() ==> !holds_session(
                        (#[trigger] self.outputs@[j])@,
                        layout,
                    ),
            },
    {
        let mut i: usize = 0;
        while i < self.outputs.len()
            invariant
                i <= self.outputs@.len(),
                forall|j: int| 0 <= j < i ==> !holds_session((#[trigger] self.outputs@[j])@, layout),
            decreases self.outputs@.len() - i,
        {
            let held = match &self.outputs[i].session {
                Some(session) => session.handle == layout,
                None => false,
            };
            if held {
                return Some(i);
            }
            i = i + 1;
        }
        None
    }

    /// Whether a live output has this registry name.
    pub fn contains_name(&self, reg_name: u32) -> (r: bool)
        ensures
            r == self@.dom().contains(reg_name),
    {
        self.place_of_name(reg_name).is_some()
    }

    /// The live output with this registry name.
    pub fn output(&self, reg_name: u32) -> (r: Option<&Output>)
        requires
            self.wf(),
        ensures
            match r {
                Some(output) => self@.dom().contains(reg_name) && output@ == self@[reg_name],
                None => !self@.dom().contains(reg_name),
            },
    {
        match self.place_of_name(reg_name) {
            Some(i) => {
                proof {
                    lemma_place(self.outputs@, i as int);
                }
                Some(&self.outputs[i])
            },
            None => None,
        }
    }

    /// The live output with this handle.
    pub fn output_by_handle(&self, handle: u32) -> (r: Option<&Output>)
        requires
            self.wf(),
        ensures
            match r {
                Some(output) => has_handle(self@, handle) && output@ == self@[handle_owner(
                    self@,
                    handle,
                )],
                None => !has_handle(self@, handle),
            },
    {
        match self.place_of_handle(handle) {
            Some(i) => {
                proof {
                    lemma_place(self.outputs@, i as int);
                    lemma_handle_found(self.outputs@, i as int);
                }
                Some(&self.outputs[i])
            },
            None => {
                proof {
                    lemma_handle_missing(self.outputs@, handle);
                }
                None
            },
        }
    }

    /// The session with this handle.
    pub fn session(&self, layout: u32) -> (r: Option<&Session>)
        requires
            self.wf(),
        ensures
            match r {
                Some(session) => has_session(self@, layout) && Some(session@) == self@[session_owner(
                    self@,
                    layout,
                )].session,
                None => !has_session(self@, layout),
            },
    {
        match self.place_of_session(layout) {
            Some(i) => {
                proof {
                    lemma_place(self.outputs@, i as int);
                    lemma_session_found(self.outputs@, i as int, layout);
                }
                self.outputs[i].session.as_ref()
            },
            None => {
                proof {
                    lemma_session_missing(self.outputs@, layout);
                }
                None
            },
        }
    }

    /// Records an output that was just bound.
    pub fn add(&mut self, reg_name: u32, handle: u32, version: u32) -> (r: Result<
        (),
        Inconsistency,
    >)
        requires
            old(self).wf(),
        ensures
            final(self).wf(),
            match add_spec(old(self)@, reg_name, handle, version) {
                Ok(outputs) => r is Ok && final(self)@ == outputs,
                Err(e) => r == Err::<(), Inconsistency>(e) && final(self)@ == old(self)@,
            },
    {
        if self.place_of_name(reg_name).is_some() {
            return Err(Inconsistency::DuplicateName);
        }
        match self.place_of_handle(handle) {
            Some(i) => {
                proof {
                    lemma_handle_found(self.outputs@, i as int);
                }
                return Err(Inconsistency::DuplicateHandle);
            },
            None => {
                proof {
                    lemma_handle_missing(self.outputs@, handle);
                }
            },
        }
        let output = Output::bound(reg_name, handle, version);
        proof {
            lemma_push(self.outputs@, output);
        }
        self.outputs.push(output);
        Ok(())
    }

    /// Removes the output with this registry name and hands it out.
    pub fn remove(&mut self, reg_name: u32) -> (r: Result<Output, Inconsistency>)
        requires
            old(self).wf(),
        ensures
            final(self).wf(),
            match remove_spec(old(self)@, reg_name) {
                Ok((outputs, removed)) => r is Ok && r->Ok_0@ == removed && final(self)@ == outputs,
                Err(e) => r == Err::<Output, Inconsistency>(e) && final(self)@ == old(self)@,
            },
    {
        match self.place_of_name(reg_name) {
            Some(i) => {
                proof {
                    lemma_place(self.outputs@, i as int);
                    lemma_swap_remove(self.outputs@, i as int);
                }
                let output = self.outputs.swap_remove(i);
                Ok(output)
            },
            None => Err(Inconsistency::UnknownName),
        }
    }

    /// Records the name that the compositor announced for the output with
    /// this handle, unless the output has a session. Returns whether a
    /// session is now wanted for it.
    pub fn record_name(&mut self, handle: u32, name: String) -> (r: Result<bool, Inconsistency>)
        requires
            old(self).wf(),
        ensures
            final(self).wf(),
            match name_spec(old(self)@, handle, name@) {
                Ok((outputs, wanted)) => r == Ok::<bool, Inconsistency>(wanted) && final(self)@
                    == outputs,
                Err(e) => r == Err::<bool, Inconsistency>(e) && final(self)@ == old(self)@,
            },
    {
        match self.place_of_handle(handle) {
            Some(i) => {
                proof {
                    lemma_place(self.outputs@, i as int);
                    lemma_handle_found(self.outputs@, i as int);
                }
                if self.outputs[i].session.is_some() {
                    return Ok(false);
                }
                proof {
                    lemma_swap_remove(self.outputs@, i as int);
                }
                let output = self.outputs.swap_remove(i);
                let named = Output {
                    handle: output.handle,
                    version: output.version,
                    reg_name: output.reg_name,
                    name: Some(name),
                    session: None,
                };
                proof {
                    lemma_push(self.outputs@, named);
                    assert(old(self)@.remove(named.reg_name).insert(named.reg_name, named@)
                        =~= old(self)@.insert(named.reg_name, named@));
                }
                self.outputs.push(named);
                Ok(true)
            },
            None => {
                proof {
                    lemma_handle_missing(self.outputs@, handle);
                }
                Err(Inconsistency::UnknownOutput)
            },
        }
    }

    /// Records the session that was opened for the output with this handle.
    pub fn attach(&mut self, handle: u32, layout: u32) -> (r: Result<(), Inconsistency>)
        requires
            old(self).wf(),
        ensures
            final(self).wf(),
            match attach_spec(old(self)@, handle, layout) {
                Ok(outputs) => r is Ok && final(self)@ == outputs,
                Err(e) => r == Err::<(), Inconsistency>(e) && final(self)@ == old(self)@,
            },
    {
        let i = match self.place_of_handle(handle) {
            Some(i) => i,
            None => {
                proof {
                    lemma_handle_missing(self.outputs@, handle);
                }
                return Err(Inconsistency::UnknownOutput);
            },
        };
        proof {
            lemma_place(self.outputs@, i as int);
            lemma_handle_found(self.outputs@, i as int);
        }
        if self.outputs[i].session.is_some() {
            return Err(Inconsistency::UnrequestedSession);
        }
        let output_name = match &self.outputs[i].name {
            Some(name) => name.clone(),
            None => {
                return Err(Inconsistency::UnrequestedSession);
            },
        };
        match self.place_of_session(layout) {
            Some(j) => {
                proof {
                    lemma_session_found(self.outputs@, j as int, layout);
                }
                return Err(Inconsistency::DuplicateHandle);
            },
            None => {
                proof {
                    lemma_session_missing(self.outputs@, layout);
                }
            },
        }
        proof {
            lemma_swap_remove(self.outputs@, i as int);
        }
        let output = self.outputs.swap_remove(i);
        let active = Output {
            handle: output.handle,
            version: output.version,
            reg_name: output.reg_name,
            name: output.name,
            session: Some(Session { handle: layout, output_name }),
        };
        proof {
            lemma_push(self.outputs@, active);
            assert(old(self)@.remove(active.reg_name).insert(active.reg_name, active@)
                =~= old(self)@.insert(active.reg_name, active@));
        }
        self.outputs.push(active);
        Ok(())
    }
}

} // verus!
