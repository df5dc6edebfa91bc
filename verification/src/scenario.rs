//! The six timed scenarios and the two-state machine they run on.
//!
//! A container under test is seen through one sample key, which is either
//! absent or present. Insert leaves it present, remove leaves it absent and a
//! lookup leaves it as it was. A scenario names the operation to be timed and
//! the state the key must be in when the clock starts.

use vstd::prelude::*;

verus! {

/// An operation on the container under test, aimed at the sample key.
#[derive(Clone, Copy, Debug, PartialEq, Eq, Structural)]
pub enum Operation {
    Insert,
    Lookup,
    Remove,
}

impl Operation {
    /// Whether the sample key is in the container after the operation, given
    /// whether it was there before.
    pub open spec fn leaves(self, present: bool) -> bool {
        match self {
            Operation::Insert => true,
            Operation::Lookup => present,
            Operation::Remove => false,
        }
    }
}

/// One timed scenario: an operation, and whether the sample key is in the
/// container when the operation is timed.
#[derive(Clone, Copy, Debug, PartialEq, Eq, Structural)]
pub enum Scenario {
    InsertAbsent,
    InsertPresent,
    LookupAbsent,
    LookupPresent,
    RemoveAbsent,
    RemovePresent,
}

impl Scenario {
    /// The operation that the scenario times.
    pub open spec fn spec_operation(self) -> Operation {
        match self {
            Scenario::InsertAbsent | Scenario::InsertPresent => Operation::Insert,
            Scenario::LookupAbsent | Scenario::LookupPresent => Operation::Lookup,
            Scenario::RemoveAbsent | Scenario::RemovePresent => Operation::Remove,
        }
    }

    /// Whether the sample key must be in the container when the clock starts.
    pub open spec fn spec_expects_present(self) -> bool {
        match self {
            Scenario::InsertAbsent | Scenario::LookupAbsent | Scenario::RemoveAbsent => false,
            Scenario::InsertPresent | Scenario::LookupPresent | Scenario::RemovePresent => true,
        }
    }

    /// The untimed step that puts the container into the state the scenario
    /// expects: an insert where the key must be present, a remove where it
    /// must be absent.
    pub open spec fn spec_setup(self) -> Operation {
        if self.spec_expects_present() {
            Operation::Insert
        } else {
            Operation::Remove
        }
    }

    #[verifier::when_used_as_spec(spec_operation)]
    pub fn operation(self) -> (operation: Operation)
        ensures
            operation == self.spec_operation(),
    {
        match self {
            Scenario::InsertAbsent | Scenario::InsertPresent => Operation::Insert,
            Scenario::LookupAbsent | Scenario::LookupPresent => Operation::Lookup,
            Scenario::RemoveAbsent | Scenario::RemovePresent => Operation::Remove,
        }
    }

    #[verifier::when_used_as_spec(spec_expects_present)]
    pub fn expects_present(self) -> (present: bool)
        ensures
            present == self.spec_expects_present(),
    {
        match self {
            Scenario::InsertAbsent | Scenario::LookupAbsent | Scenario::RemoveAbsent => false,
            Scenario::InsertPresent | Scenario::LookupPresent | Scenario::RemovePresent => true,
        }
    }

    #[verifier::when_used_as_spec(spec_setup)]
    pub fn setup(self) -> (step: Operation)
        ensures
            step == self.spec_setup(),
            forall|present: bool| step.leaves(present) == self.spec_expects_present(),
    {
        if self.expects_present() {
            Operation::Insert
        } else {
            Operation::Remove
        }
    }

    /// The six scenarios, in the order in which a case runs them.
    pub open spec fn spec_all() -> Seq<Scenario> {
        seq![
            Scenario::InsertAbsent,
            Scenario::InsertPresent,
            Scenario::LookupAbsent,
            Scenario::LookupPresent,
            Scenario::RemoveAbsent,
            Scenario::RemovePresent,
        ]
    }

    /// The table of scenarios. It holds every scenario, and each once.
    pub fn all() -> (scenarios: Vec<Scenario>)
        ensures
            scenarios@ == Scenario::spec_all(),
            scenarios@.len() == 6,
            scenarios@.no_duplicates(),
            forall|scenario: Scenario| scenarios@.contains(scenario),
    {
        let mut scenarios: Vec<Scenario> = Vec::new();
        scenarios.push(Scenario::InsertAbsent);
        scenarios.push(Scenario::InsertPresent);
        scenarios.push(Scenario::LookupAbsent);
        scenarios.push(Scenario::LookupPresent);
        scenarios.push(Scenario::RemoveAbsent);
        scenarios.push(Scenario::RemovePresent);
        assert(scenarios@ =~= Scenario::spec_all());
        assert forall|scenario: Scenario| scenarios@.contains(scenario) by {
            let at: int = match scenario {
                Scenario::InsertAbsent => 0,
                Scenario::InsertPresent => 1,
                Scenario::LookupAbsent => 2,
                Scenario::LookupPresent => 3,
                Scenario::RemoveAbsent => 4,
                Scenario::RemovePresent => 5,
            };
            assert(scenarios@[at] == scenario);
        }
        scenarios
    }
}

} // verus!
