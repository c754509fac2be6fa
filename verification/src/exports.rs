//! The table of exported names.
//!
//! Every entry point is exported under a name derived from its function's
//! name. No two exports may share a name: the table holds the names in use and
//! refuses a plan whose entry points would collide with one of them.
//! [`ExportTable::export`] is synthesis with that check.
use crate::descriptor::FnDescriptor;
use crate::synth::{
    complete, derived_from, draft, lemma_entry_names_differ, synthesis_error, EntryKind,
    Generated, SynthesisError,
};
use vstd::prelude::*;

verus! {

/// The names that are exported so far, each once.
pub struct ExportTable {
    names: Vec<String>,
}

/// The names that the runtime exports itself.
pub open spec fn runtime_exports() -> Seq<Seq<char>> {
    seq!["wasm_alloc"@, "unforget"@, "setup"@]
}

impl View for ExportTable {
    type V = Seq<Seq<char>>;

    /// The exported names, in the order in which they were registered.
    closed spec fn view(&self) -> Seq<Seq<char>> {
        self.names.deep_view()
    }
}

impl ExportTable {
    /// No name occurs twice.
    pub closed spec fn wf(&self) -> bool {
        forall|i: int, j: int|
            0 <= i < j < self.names@.len() ==> self.names@[i]@ != self.names@[j]@
    }

    /// The table of a guest that exports nothing but the runtime's own
    /// functions.
    pub fn new() -> (table: ExportTable)
        ensures
            table.wf(),
            table@ == runtime_exports(),
    {
        let mut names: Vec<String> = Vec::new();
        names.push(String::from_str("wasm_alloc"));
        names.push(String::from_str("unforget"));
        names.push(String::from_str("setup"));
        proof {
            reveal_strlit("wasm_alloc");
            reveal_strlit("unforget");
            reveal_strlit("setup");
            assert("wasm_alloc"@.len() == 10);
            assert("unforget"@.len() == 8);
            assert("setup"@.len() == 5);
            assert(names.deep_view() =~= runtime_exports());
        }
        ExportTable { names }
    }

    /// Whether `name` is exported.
    pub fn contains(&self, name: &str) -> (found: bool)
        ensures
            found == self@.contains(name@),
    {
        let wanted = String::from_str(name);
        let mut i: usize = 0;
        while i < self.names.len()
            invariant
                i <= self.names@.len(),
                wanted@ == name@,
                forall|k: int| 0 <= k < i ==> self@[k] != name@,
            decreases self.names@.len() - i,
        {
            if self.names[i] == wanted {
                assert(self@[i as int] == name@);
                return true;
            }
            i += 1;
        }
        false
    }

    /// Registers the two entry points of a plan.
    ///
    /// Fails with `NameCollision`, changing nothing, exactly when one of the
    /// two names is exported already or the two are the same name.
    pub fn register(&mut self, plan: &Generated) -> (r: Result<(), SynthesisError>)
        requires
            old(self).wf(),
        ensures
            final(self).wf(),
            match r {
                Ok(()) => {
                    &&& !old(self)@.contains(plan.invoke_name@)
                    &&& !old(self)@.contains(plan.introspect_name@)
                    &&& plan.invoke_name@ != plan.introspect_name@
                    &&& final(self)@ == old(self)@.push(plan.invoke_name@).push(
                        plan.introspect_name@,
                    )
                },
                Err(error) => {
                    &&& error == SynthesisError::NameCollision
                    &&& (old(self)@.contains(plan.invoke_name@) || old(self)@.contains(
                        plan.introspect_name@,
                    ) || plan.invoke_name@ == plan.introspect_name@)
                    &&& *final(self) == *old(self)
                },
            },
    {
        if self.contains(plan.invoke_name.as_str()) || self.contains(
            plan.introspect_name.as_str(),
        ) || plan.invoke_name == plan.introspect_name {
            return Err(SynthesisError::NameCollision);
        }
        let ghost before = self@;
        self.names.push(plan.invoke_name.clone());
        self.names.push(plan.introspect_name.clone());
        proof {
            assert(self@ =~= before.push(plan.invoke_name@).push(plan.introspect_name@));
            assert forall|i: int, j: int| 0 <= i < j < self.names@.len() implies self.names@[i]@
                != self.names@[j]@ by {
                assert(self.names@[i]@ == self@[i]);
                assert(self.names@[j]@ == self@[j]);
                if j < before.len() {
                    assert(old(self).names@[i]@ == before[i]);
                    assert(old(self).names@[j]@ == before[j]);
                } else if i < before.len() {
                    assert(before[i] == self@[i]);
                }
            }
        }
        Ok(())
    }

    /// Whether one of the two entry points of a function named `ident` would
    /// share its name with an export.
    pub open spec fn collides(self, kind: EntryKind, ident: Seq<char>) -> bool {
        ||| self@.contains(kind.invoke_prefix_text() + ident)
        ||| self@.contains(kind.introspect_prefix_text() + ident)
    }

    /// Synthesizes the entry points of a function or workflow and registers
    /// them.
    ///
    /// * A descriptor that is itself rejected gives its error.
    /// * A valid descriptor whose entry points collide with an export gives
    ///   `NameCollision`.
    /// * Every other descriptor gives its plan, and the table holds the two
    ///   new names after those it held.
    ///
    /// Every failure leaves the table as it was.
    pub fn export(&mut self, kind: EntryKind, input: FnDescriptor) -> (r: Result<
        Generated,
        SynthesisError,
    >)
        requires
            old(self).wf(),
        ensures
            final(self).wf(),
            r is Err ==> *final(self) == *old(self),
            match synthesis_error(kind, input) {
                Some(error) => r == Err::<Generated, SynthesisError>(error),
                None => if old(self).collides(kind, input.ident@) {
                    r == Err::<Generated, SynthesisError>(SynthesisError::NameCollision)
                } else {
                    &&& r matches Ok(plan)
                    &&& derived_from(plan, kind, input)
                    &&& final(self)@ == old(self)@.push(plan.invoke_name@).push(
                        plan.introspect_name@,
                    )
                },
            },
    {
        let (plan, item) = match draft(kind, input) {
            Ok(pair) => pair,
            Err(error) => {
                return Err(error);
            },
        };
        if self.contains(plan.invoke_name.as_str()) || self.contains(
            plan.introspect_name.as_str(),
        ) {
            return Err(SynthesisError::NameCollision);
        }
        let done = complete(plan, item.as_str());
        proof {
            lemma_entry_names_differ(kind, input.ident@);
        }
        let registered = self.register(&done);
        assert(registered is Ok);
        Ok(done)
    }
}

} // verus!
