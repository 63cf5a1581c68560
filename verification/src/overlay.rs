use vstd::prelude::*;

verus! {

/// The closed set of recognized setting identifiers.
#[derive(Clone, Copy, Debug, PartialEq, Eq, Hash, Structural)]
pub enum SettingsKey {
    LogLevel,
    LogFileLevel,
    Raw,
    Jobs,
    Verbose,
    MissingRuntimeBehavior,
    Experimental,
}

/// A value explicitly provided by a source: a tagged union over the
/// primitive types a setting may hold.
#[derive(Clone, Debug)]
pub enum Value {
    Bool(bool),
    String(String),
    Int(usize),
}

/// The mathematical shape of a `Value`: strings are read as their character
/// sequences.
pub enum SpecValue {
    Bool(bool),
    Str(Seq<char>),
    Int(usize),
}

impl View for Value {
    type V = SpecValue;

    open spec fn view(&self) -> SpecValue {
        match self {
            Value::Bool(b) => SpecValue::Bool(*b),
            Value::String(s) => SpecValue::Str(s@),
            Value::Int(n) => SpecValue::Int(*n),
        }
    }
}

impl Value {
    /// A copy with the same contents; `String` values are cloned.
    pub fn duplicate(&self) -> (r: Value)
        ensures
            r@ == self@,
    {
        match self {
            Value::Bool(b) => Value::Bool(*b),
            Value::String(s) => Value::String(s.clone()),
            Value::Int(n) => Value::Int(*n),
        }
    }
}

/// The sparse overlay: for each recognized key, the value a source
/// explicitly set, if any. A key that is absent means "use the built-in
/// default"; the overlay never stores a derived value.
#[derive(Debug)]
pub struct Overlay {
    log_level: Option<Value>,
    log_file_level: Option<Value>,
    raw: Option<Value>,
    jobs: Option<Value>,
    verbose: Option<Value>,
    missing_runtime_behavior: Option<Value>,
    experimental: Option<Value>,
}

/// The entry stored under one key, as a mathematical value.
pub open spec fn opt_value_view(v: Option<Value>) -> Option<SpecValue> {
    match v {
        Some(x) => Some(x@),
        None => None,
    }
}

impl Overlay {
    /// The slot that holds `key`'s entry.
    pub closed spec fn entry(self, key: SettingsKey) -> Option<SpecValue> {
        match key {
            SettingsKey::LogLevel => opt_value_view(self.log_level),
            SettingsKey::LogFileLevel => opt_value_view(self.log_file_level),
            SettingsKey::Raw => opt_value_view(self.raw),
            SettingsKey::Jobs => opt_value_view(self.jobs),
            SettingsKey::Verbose => opt_value_view(self.verbose),
            SettingsKey::MissingRuntimeBehavior => opt_value_view(self.missing_runtime_behavior),
            SettingsKey::Experimental => opt_value_view(self.experimental),
        }
    }

    /// An empty overlay: nothing was explicitly set.
    pub fn new() -> (r: Overlay)
        ensures
            r@ == Map::<SettingsKey, SpecValue>::empty(),
    {
        let r = Overlay {
            log_level: None,
            log_file_level: None,
            raw: None,
            jobs: None,
            verbose: None,
            missing_runtime_behavior: None,
            experimental: None,
        };
        proof {
            assert(r@ =~= Map::<SettingsKey, SpecValue>::empty());
        }
        r
    }

    /// Inserts or replaces the value stored under `key`.
    pub fn set(&mut self, key: SettingsKey, value: Value)
        ensures
            final(self)@ == old(self)@.insert(key, value@),
    {
        let ghost prior = *self;
        let ghost v = value@;
        match key {
            SettingsKey::LogLevel => self.log_level = Some(value),
            SettingsKey::LogFileLevel => self.log_file_level = Some(value),
            SettingsKey::Raw => self.raw = Some(value),
            SettingsKey::Jobs => self.jobs = Some(value),
            SettingsKey::Verbose => self.verbose = Some(value),
            SettingsKey::MissingRuntimeBehavior => self.missing_runtime_behavior = Some(value),
            SettingsKey::Experimental => self.experimental = Some(value),
        }
        proof {
            assert forall|k: SettingsKey| self.entry(k) == (if k == key {
                Some(v)
            } else {
                prior.entry(k)
            }) by {
            }
            assert(self@ =~= prior@.insert(key, v));
        }
    }

    /// The current value stored under `key`, or nothing if unset.
    pub fn get(&self, key: SettingsKey) -> (r: Option<&Value>)
        ensures
            match r {
                Some(v) => self@.contains_key(key) && self@[key] == v@,
                None => !self@.contains_key(key),
            },
    {
        let slot = match key {
            SettingsKey::LogLevel => &self.log_level,
            SettingsKey::LogFileLevel => &self.log_file_level,
            SettingsKey::Raw => &self.raw,
            SettingsKey::Jobs => &self.jobs,
            SettingsKey::Verbose => &self.verbose,
            SettingsKey::MissingRuntimeBehavior => &self.missing_runtime_behavior,
            SettingsKey::Experimental => &self.experimental,
        };
        match slot {
            Some(v) => Some(v),
            None => None,
        }
    }

    /// A copy of this overlay with the same contents.
    pub fn duplicate(&self) -> (r: Overlay)
        ensures
            r@ == self@,
    {
        let r = Overlay {
            log_level: dup_slot(&self.log_level),
            log_file_level: dup_slot(&self.log_file_level),
            raw: dup_slot(&self.raw),
            jobs: dup_slot(&self.jobs),
            verbose: dup_slot(&self.verbose),
            missing_runtime_behavior: dup_slot(&self.missing_runtime_behavior),
            experimental: dup_slot(&self.experimental),
        };
        proof {
            assert(r@ =~= self@);
        }
        r
    }

    /// Copies every entry of `other` into `self`, overwriting on collision.
    pub fn merge_from(&mut self, other: &Overlay)
        ensures
            final(self)@ == old(self)@.union_prefer_right(other@),
    {
        let ghost prior = *self;
        if let Some(v) = other.get(SettingsKey::LogLevel) {
            self.log_level = Some(v.duplicate());
        }
        if let Some(v) = other.get(SettingsKey::LogFileLevel) {
            self.log_file_level = Some(v.duplicate());
        }
        if let Some(v) = other.get(SettingsKey::Raw) {
            self.raw = Some(v.duplicate());
        }
        if let Some(v) = other.get(SettingsKey::Jobs) {
            self.jobs = Some(v.duplicate());
        }
        if let Some(v) = other.get(SettingsKey::Verbose) {
            self.verbose = Some(v.duplicate());
        }
        if let Some(v) = other.get(SettingsKey::MissingRuntimeBehavior) {
            self.missing_runtime_behavior = Some(v.duplicate());
        }
        if let Some(v) = other.get(SettingsKey::Experimental) {
            self.experimental = Some(v.duplicate());
        }
        proof {
            assert(self@ =~= prior@.union_prefer_right(other@));
        }
    }
}

fn dup_slot(slot: &Option<Value>) -> (r: Option<Value>)
    ensures
        opt_value_view(r) == opt_value_view(*slot),
{
    match slot {
        Some(v) => Some(v.duplicate()),
        None => None,
    }
}

impl View for Overlay {
    type V = Map<SettingsKey, SpecValue>;

    open spec fn view(&self) -> Map<SettingsKey, SpecValue> {
        Map::new(
            |k: SettingsKey| self.entry(k) is Some,
            |k: SettingsKey|
                match self.entry(k) {
                    Some(v) => v,
                    None => SpecValue::Bool(false),
                },
        )
    }
}

} // verus!
