use vstd::prelude::*;

verus! {

/// The kind of a stored value. It is fixed when the value is registered.
#[derive(Clone, Copy, Debug, PartialEq, Eq, Structural)]
pub enum Kind {
    Int,
    Uint,
    Flag,
    Text,
}

/// A value held by the store: one of the kinds of hook state it can keep.
#[derive(Debug, PartialEq, Eq)]
pub enum HookValue {
    Int(i64),
    Uint(u64),
    Flag(bool),
    Text(String),
}

impl HookValue {
    pub open spec fn kind_of(self) -> Kind {
        match self {
            HookValue::Int(_) => Kind::Int,
            HookValue::Uint(_) => Kind::Uint,
            HookValue::Flag(_) => Kind::Flag,
            HookValue::Text(_) => Kind::Text,
        }
    }

    pub fn kind(&self) -> (k: Kind)
        ensures
            k == self.kind_of(),
    {
        match self {
            HookValue::Int(_) => Kind::Int,
            HookValue::Uint(_) => Kind::Uint,
            HookValue::Flag(_) => Kind::Flag,
            HookValue::Text(_) => Kind::Text,
        }
    }
}

/// The one-shot action paired with an entry, run on its value when the store
/// is destroyed. What an action does shows in the teardown log.
#[derive(Clone, Copy, Debug, PartialEq, Eq, Structural)]
pub enum Teardown {
    /// Does nothing.
    Nothing,
    /// Appends the given identifier to the log (a subscription or timer to release).
    Record(u64),
    /// Appends the value as it stands at teardown when it is a `Uint`; nothing otherwise.
    RecordCount,
}

impl Teardown {
    /// What the action appends to the log when run on `value`.
    pub open spec fn emitted(self, value: HookValue) -> Seq<u64> {
        match self {
            Teardown::Nothing => seq![],
            Teardown::Record(id) => seq![id],
            Teardown::RecordCount => match value {
                HookValue::Uint(n) => seq![n],
                _ => seq![],
            },
        }
    }

    /// Runs the action once, consuming it.
    pub fn run(self, value: &HookValue, log: &mut Vec<u64>)
        ensures
            final(log)@ == old(log)@ + self.emitted(*value),
    {
        match self {
            Teardown::Nothing => {},
            Teardown::Record(id) => {
                log.push(id);
            },
            Teardown::RecordCount => {
                match value {
                    HookValue::Uint(n) => {
                        log.push(*n);
                    },
                    _ => {},
                }
            },
        }
        assert(final(log)@ =~= old(log)@ + self.emitted(*value));
    }
}

} // verus!
