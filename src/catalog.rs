//! Registry of the actions an agent can perform, one per kind.
use vstd::prelude::*;

use crate::actions::{Action, ActionDescriptor, ActionRecord, ActionValidityError};
use crate::external::{decodes_as_json, json_valid};
use crate::error::ErrorKind;

verus! {

/// Why a request for an action was refused before anything was stored.
#[derive(Clone, Debug, PartialEq, Eq)]
pub enum RequestError {
    /// No action of the requested kind is registered.
    NotAvailable(ErrorKind),
    /// The action refused the arguments.
    Invalid(ActionValidityError),
    /// The store could not keep the new record.
    Store(ErrorKind),
}

/// Registry of action definitions; read-only once the agent has started.
pub struct ActionCatalog<A: Action> {
    actions: Vec<A>,
}

impl<A: Action> ActionCatalog<A> {
    /// The registered kinds, in registration order.
    pub closed spec fn kinds(&self) -> Seq<Seq<char>> {
        self.actions@.map_values(|a: A| a.kind())
    }

    /// The registered actions, in registration order.
    pub closed spec fn actions(&self) -> Seq<A> {
        self.actions@
    }

    /// A request for `kind` with `args` passes: the kind is registered and its
    /// action accepts the arguments.
    pub open spec fn accepts(&self, kind: Seq<char>, args: Seq<char>) -> bool {
        exists|i: int|
            0 <= i < self.kinds().len() && self.kinds()[i] == kind && (
            #[trigger] self.actions()[i]).valid_args(args)
    }

    /// The kinds are those of the actions.
    pub proof fn lemma_kinds(&self)
        ensures
            self.kinds().len() == self.actions().len(),
            forall|i: int| 0 <= i < self.kinds().len() ==> #[trigger] self.kinds()[i] == self.actions()[i].kind(),
    {
    }

    /// Kinds are unique.
    pub open spec fn wf(&self) -> bool {
        forall|i: int, j: int|
            0 <= i < j < self.kinds().len() ==> self.kinds()[i] != self.kinds()[j]
    }

    /// An empty catalog.
    pub fn new() -> (r: Self)
        ensures
            r.wf(),
            r.kinds() == Seq::<Seq<char>>::empty(),
    {
        let r = ActionCatalog { actions: Vec::new() };
        assert(r.kinds() =~= Seq::<Seq<char>>::empty());
        r
    }

    /// Number of registered actions.
    pub fn len(&self) -> (r: usize)
        ensures
            r == self.kinds().len(),
    {
        self.actions.len()
    }

    /// Index of the action registered under `kind`, if any.
    pub fn lookup(&self, kind: &String) -> (r: Option<usize>)
        requires
            self.wf(),
        ensures
            r is None <==> !self.kinds().contains(kind@),
            r is Some ==> r->Some_0 < self.kinds().len() && self.kinds()[r->Some_0 as int]
                == kind@,
    {
        let mut i: usize = 0;
        while i < self.actions.len()
            invariant
                i <= self.actions@.len(),
                self.kinds().len() == self.actions@.len(),
                forall|k: int| 0 <= k < i ==> self.kinds()[k] != kind@,
            decreases self.actions@.len() - i,
        {
            let d = self.actions[i].describe();
            if d.kind == *kind {
                assert(self.kinds()[i as int] == kind@);
                assert(self.kinds().contains(kind@));
                return Some(i);
            }
            i = i + 1;
        }
        proof {
            if self.kinds().contains(kind@) {
                let k = choose|k: int| 0 <= k < self.kinds().len() && self.kinds()[k] == kind@;
                assert(self.kinds()[k] != kind@);
            }
        }
        None
    }

    /// The action at index `i`.
    pub fn get(&self, i: usize) -> (r: &A)
        requires
            i < self.kinds().len(),
        ensures
            *r == self.actions()[i as int],
            r.kind() == self.kinds()[i as int],
    {
        &self.actions[i]
    }

    /// Registers an action under its kind. A second action of a kind that is
    /// already registered is refused with `ConfigClash`, and nothing changes.
    pub fn register(&mut self, action: A) -> (r: Result<(), ErrorKind>)
        requires
            old(self).wf(),
        ensures
            final(self).wf(),
            r is Ok <==> !old(self).kinds().contains(action.kind()),
            r is Ok ==> final(self).kinds() == old(self).kinds().push(action.kind())
                && final(self).actions() == old(self).actions().push(action),
            r is Err ==> final(self).actions() == old(self).actions(),
            r is Err ==> final(self).kinds() == old(self).kinds() && r->Err_0 is ConfigClash,
    {
        let d = action.describe();
        if self.lookup(&d.kind).is_some() {
            return Err(ErrorKind::ConfigClash("action kind registered twice".to_owned()));
        }
        self.actions.push(action);
        assert(self.kinds() =~= old(self).kinds().push(d.kind@));
        proof {
            assert forall|i: int, j: int|
                0 <= i < j < self.kinds().len() implies self.kinds()[i] != self.kinds()[j] by {
                if j == old(self).kinds().len() {
                    assert(old(self).kinds()[i] != d.kind@);
                }
            }
        }
        Ok(())
    }

    /// Checks a request for an action of `kind` with `args`, before any record
    /// is stored: the kind must be registered, then its action validates the
    /// arguments. Gives the index of the action.
    pub fn validate(&self, kind: &String, args: &String) -> (r: Result<usize, RequestError>)
        requires
            self.wf(),
        ensures
            !self.kinds().contains(kind@) ==> r == Err::<usize, RequestError>(
                RequestError::NotAvailable(ErrorKind::ActionNotAvailable(*kind)),
            ),
            self.kinds().contains(kind@) ==> r is Ok || r->Err_0 is Invalid,
            r is Ok <==> self.accepts(kind@, args@),
            r is Ok ==> r->Ok_0 < self.kinds().len() && self.kinds()[r->Ok_0 as int] == kind@
                && self.actions()[r->Ok_0 as int].valid_args(args@),
    {
        match self.lookup(kind) {
            None => {
                proof {
                    if self.accepts(kind@, args@) {
                        let j = choose|j: int|
                            0 <= j < self.kinds().len() && self.kinds()[j] == kind@ && (
                            #[trigger] self.actions()[j]).valid_args(args@);
                        assert(self.kinds()[j] == kind@);
                    }
                }
                Err(RequestError::NotAvailable(ErrorKind::ActionNotAvailable(kind.clone())))
            },
            Some(i) => match self.actions[i].validate_args(args) {
                Ok(()) => {
                    assert(self.kinds()[i as int] == kind@);
                    assert(self.actions()[i as int].valid_args(args@));
                    Ok(i)
                },
                Err(e) => {
                    proof {
                        assert forall|j: int|
                            0 <= j < self.kinds().len() && self.kinds()[j] == kind@ implies !(
                            #[trigger] self.actions()[j]).valid_args(args@) by {
                            if j != i {
                                if j < i {
                                    assert(self.kinds()[j] != self.kinds()[i as int]);
                                } else {
                                    assert(self.kinds()[i as int] != self.kinds()[j]);
                                }
                            }
                        }
                    }
                    Err(RequestError::Invalid(e))
                },
            },
        }
    }
}

/// An action that does nothing and always succeeds, used to check that the
/// action pipeline of an agent works end to end. Its arguments must be JSON.
#[derive(Clone, Debug, PartialEq, Eq)]
pub struct PingAction {
    pub kind: String,
    pub description: String,
}

impl PingAction {
    /// A no-op action of the given kind.
    pub fn new(kind: String, description: String) -> (r: PingAction)
        ensures
            r.kind == kind,
            r.description == description,
    {
        PingAction { kind, description }
    }

    /// Accepts arguments that decode as JSON.
    pub fn check_args(args: &String) -> (r: Result<(), ActionValidityError>)
        ensures
            r is Ok <==> json_valid(args@),
    {
        if decodes_as_json(args.as_str()) {
            Ok(())
        } else {
            Err(ActionValidityError::InvalidArgs("arguments are not valid JSON".to_owned()))
        }
    }
}

impl Action for PingAction {
    open spec fn kind(&self) -> Seq<char> {
        self.kind@
    }

    fn describe(&self) -> (r: ActionDescriptor) {
        ActionDescriptor { kind: self.kind.clone(), description: self.description.clone() }
    }

    open spec fn valid_args(&self, args: Seq<char>) -> bool {
        json_valid(args)
    }

    fn validate_args(&self, args: &String) -> (r: Result<(), ActionValidityError>) {
        PingAction::check_args(args)
    }

    fn invoke(&self, record: &ActionRecord) -> (r: Result<(), String>) {
        Ok(())
    }
}

} // verus!
