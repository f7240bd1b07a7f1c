//! Devices that just hold what they are set to.
//!
//! The configuration lists them under `vars`: each entry has a `name` and an
//! `initial` value, whose type is the type of the device from then on.

use crate::device::{Base, DeviceValue, ReadWriteCompat};
use crate::driver::{views, Channel, Registration, RegistrationView};
use crate::error::{config_error, is_config_error, Error};
use crate::memory::config::{array_items, string_chars, table_entries, table_get, value_table};
use vstd::prelude::*;

verus! {

/// The test whether a value is of a certain type.
#[derive(Clone, Copy, Debug, PartialEq, Eq, Structural)]
pub enum TypeChecker {
    Bool,
    Int,
    Flt,
    Str,
    Color,
}

impl TypeChecker {
    /// Whether a value passes.
    pub open spec fn admits(self, val: DeviceValue) -> bool {
        match self {
            TypeChecker::Bool => val is Bool,
            TypeChecker::Int => val is Int,
            TypeChecker::Flt => val is Flt,
            TypeChecker::Str => val is Str,
            TypeChecker::Color => val is Color,
        }
    }

    /// Tests a value.
    pub fn is_good(&self, val: &DeviceValue) -> (r: bool)
        ensures
            r == self.admits(*val),
    {
        match (self, val) {
            (TypeChecker::Bool, DeviceValue::Bool(_)) => true,
            (TypeChecker::Int, DeviceValue::Int(_)) => true,
            (TypeChecker::Flt, DeviceValue::Flt(_)) => true,
            (TypeChecker::Str, DeviceValue::Str(_)) => true,
            (TypeChecker::Color, DeviceValue::Color(_)) => true,
            _ => false,
        }
    }
}

/// The test that values of the same type as `val` pass, and no others.
pub fn get_validator(val: &DeviceValue) -> (r: TypeChecker)
    ensures
        forall|v: DeviceValue| #[trigger] r.admits(v) <==> val.same_type(v),
{
    match val {
        DeviceValue::Bool(_) => TypeChecker::Bool,
        DeviceValue::Int(_) => TypeChecker::Int,
        DeviceValue::Flt(_) => TypeChecker::Flt,
        DeviceValue::Str(_) => TypeChecker::Str,
        DeviceValue::Color(_) => TypeChecker::Color,
    }
}

/// The devices of an instance of the driver, each by the test that settings have
/// to pass.
#[derive(Debug)]
pub struct Devices {
    pub set: Vec<TypeChecker>,
}

/// What has happened since the last step of `poll`.
#[derive(Debug)]
pub enum PollEvent<S> {
    /// The device that was asked has this setting.
    Setting(DeviceValue, S),
    /// The device that was asked has none, for now or for good.
    Nothing,
}

/// What the caller of `poll` is to do.
#[derive(Debug)]
pub enum PollAction {
    /// Ask this device for a setting.
    Ask(usize),
    /// This device has been set to this value.
    Ready(usize, DeviceValue),
    /// There is no setting for now.
    Pending,
}

/// A step of `poll`: the client to be answered, and what to do next.
#[derive(Debug)]
pub struct PollStep<S> {
    pub answer: Option<(S, Result<DeviceValue, Error>)>,
    pub action: PollAction,
}

impl Devices {
    /// The action that turns to the device `idx`, if there is one.
    pub open spec fn turn_to(self, idx: int) -> PollAction {
        if idx < self.set@.len() {
            PollAction::Ask(idx as usize)
        } else {
            PollAction::Pending
        }
    }

    /// The step after the device `idx` was asked.
    pub open spec fn after_asking<S>(self, idx: int, event: PollEvent<S>) -> PollStep<S> {
        match event {
            PollEvent::Setting(val, responder) => if self.set@[idx].admits(val) {
                PollStep {
                    answer: Some((responder, Ok(val))),
                    action: PollAction::Ready(idx as usize, val),
                }
            } else {
                PollStep {
                    answer: Some((responder, Err(Error::TypeError))),
                    action: PollAction::Ask(idx as usize),
                }
            },
            PollEvent::Nothing => PollStep { answer: None, action: self.turn_to(idx + 1) },
        }
    }

    /// No devices.
    pub fn new() -> (r: Self)
        ensures
            r.set@.len() == 0,
    {
        Devices { set: Vec::new() }
    }

    /// The first action of a round.
    pub fn start(&self) -> (r: PollAction)
        ensures
            r == self.turn_to(0),
    {
        if self.set.len() > 0 {
            PollAction::Ask(0)
        } else {
            PollAction::Pending
        }
    }

    /// Takes one step towards the next setting of any device. The devices are
    /// asked in turn, each until it has a setting of its type or none at all.
    pub fn poll<S>(&self, idx: usize, event: PollEvent<S>) -> (step: PollStep<S>)
        requires
            idx < self.set@.len(),
        ensures
            step == self.after_asking(idx as int, event),
    {
        match event {
            PollEvent::Setting(val, responder) => if self.set[idx].is_good(&val) {
                PollStep {
                    answer: Some((responder, Ok(val.duplicate()))),
                    action: PollAction::Ready(idx, val),
                }
            } else {
                PollStep {
                    answer: Some((responder, Err(Error::TypeError))),
                    action: PollAction::Ask(idx),
                }
            },
            PollEvent::Nothing => PollStep {
                answer: None,
                action: if idx < self.set.len() - 1 {
                    PollAction::Ask(idx + 1)
                } else {
                    PollAction::Pending
                },
            },
        }
    }
}

/// The entry of a table with this key, if there is one.
pub open spec fn entry(table: toml::Table, key: Seq<char>) -> Option<toml::Value> {
    if table_entries(table).dom().contains(key) {
        Some(table_entries(table)[key])
    } else {
        None
    }
}

/// Whether `r` is what the name of a `vars` entry is read as. `parse` decides
/// whether a text is the base name of a device.
pub open spec fn reads_name<P: Fn(&str) -> Option<Base>>(
    m: toml::Table,
    parse: P,
    r: Result<Base, Error>,
) -> bool {
    match entry(m, "name"@) {
        None => is_config_error(r, "missing `name` parameter in `vars` entry"@),
        Some(v) => match string_chars(v) {
            None => is_config_error(r, "'name' config parameter should be a string"@),
            Some(text) => exists|s: &str|
                #[trigger] s@ == text && match r {
                    Ok(base) => call_ensures(parse, (s,), Some(base)),
                    Err(_) => call_ensures(parse, (s,), None::<Base>) && is_config_error(
                        r,
                        "'name' isn't a proper, base name for a device"@,
                    ),
                },
        },
    }
}

/// Whether `r` is what the initial value of a `vars` entry is read as. `convert`
/// turns a TOML value into the value of a device.
pub open spec fn reads_initial<C: Fn(&toml::Value) -> Result<DeviceValue, Error>>(
    m: toml::Table,
    convert: C,
    r: Result<DeviceValue, Error>,
) -> bool {
    match entry(m, "initial"@) {
        None => is_config_error(r, "missing `initial` parameter in `vars` entry"@),
        Some(v) => call_ensures(convert, (&v,), r),
    }
}

/// Whether `r` is what a `vars` entry is read as. The name is read first.
pub open spec fn reads_entry<
    P: Fn(&str) -> Option<Base>,
    C: Fn(&toml::Value) -> Result<DeviceValue, Error>,
>(v: toml::Value, parse: P, convert: C, r: Result<(Base, DeviceValue), Error>) -> bool {
    match value_table(v) {
        None => is_config_error(r, "`vars` contains an entry that isn't a map"@),
        Some(m) => match r {
            Ok((base, init)) => reads_name(m, parse, Ok(base)) && reads_initial(
                m,
                convert,
                Ok(init),
            ),
            Err(e) => {
                ||| reads_name(m, parse, Err(e))
                ||| {
                    &&& exists|base: Base| reads_name(m, parse, Ok(base))
                    &&& reads_initial(m, convert, Err(e))
                }
            },
        },
    }
}

/// Whether `r` is what the variables of a configuration are read as. There has to
/// be one at least. The first entry that cannot be read decides the error.
pub open spec fn reads_vars<
    P: Fn(&str) -> Option<Base>,
    C: Fn(&toml::Value) -> Result<DeviceValue, Error>,
>(cfg: toml::Table, parse: P, convert: C, r: Result<Vec<(Base, DeviceValue)>, Error>) -> bool {
    match entry(cfg, "vars"@) {
        None => is_config_error(r, "missing 'vars' parameter in config"@),
        Some(v) => match array_items(v) {
            Some(items) => if items.len() == 0 {
                is_config_error(r, "'vars' config parameter should be an array of maps"@)
            } else {
                match r {
                    Ok(vars) => {
                        &&& vars@.len() == items.len()
                        &&& forall|i: int|
                            0 <= i < items.len() ==> reads_entry(
                                items[i],
                                parse,
                                convert,
                                Ok(#[trigger] vars@[i]),
                            )
                    },
                    Err(e) => exists|i: int|
                        {
                            &&& 0 <= i < items.len()
                            &&& reads_entry(#[trigger] items[i], parse, convert, Err(e))
                            &&& forall|j: int|
                                0 <= j < i ==> readable(#[trigger] items[j], parse, convert)
                        },
                }
            },
            None => is_config_error(r, "'vars' config parameter should be an array of maps"@),
        },
    }
}

/// Whether a `vars` entry can be read.
pub open spec fn readable<
    P: Fn(&str) -> Option<Base>,
    C: Fn(&toml::Value) -> Result<DeviceValue, Error>,
>(v: toml::Value, parse: P, convert: C) -> bool {
    exists|var: (Base, DeviceValue)| reads_entry(v, parse, convert, Ok(var))
}

/// The device that a variable asks for.
pub open spec fn memory_device(base: Base, max_history: Option<usize>) -> RegistrationView {
    RegistrationView {
        name: base.name@,
        subpath: None,
        units: None,
        channel: Channel::ReadWrite,
        max_history,
    }
}

/// The devices that the variables ask for.
pub open spec fn memory_devices(
    vars: Seq<(Base, DeviceValue)>,
    max_history: Option<usize>,
) -> Seq<RegistrationView> {
    vars.map_values(|var: (Base, DeviceValue)| memory_device(var.0, max_history))
}

/// Whether the devices after are those before and one more, which takes the values
/// of the type that `init_val` has.
pub open spec fn joined(before: Devices, after: Devices, init_val: DeviceValue) -> bool {
    &&& after.set@.len() == before.set@.len() + 1
    &&& after.set@.drop_last() == before.set@
    &&& forall|v: DeviceValue|
        #[trigger] after.set@.last().admits(v) <==> init_val.same_type(v)
}

/// The value that is to be written when a device is added of which the backend
/// remembers `last`.
pub open spec fn due_at_start(last: Option<DeviceValue>, init_val: DeviceValue) -> Option<
    DeviceValue,
> {
    if last matches Some(v) && v.same_type(init_val) {
        None
    } else {
        Some(init_val)
    }
}

/// The driver.
#[derive(Clone, Copy, Debug, PartialEq, Eq, Structural)]
pub struct Instance;

impl Instance {
    /// The name of the driver.
    pub const NAME: &'static str = "memory";

    /// What the driver is for.
    pub const SUMMARY: &'static str = "An area in memory to set values.";

    /// An instance of the driver.
    pub fn new() -> (r: Instance)
        ensures
            r == Instance,
    {
        Instance
    }

    /// Reads the name of a `vars` entry.
    pub fn read_name<P: Fn(&str) -> Option<Base>>(m: &toml::Table, parse: &P) -> (r: Result<
        Base,
        Error,
    >)
        requires
            forall|s: &str| #[trigger] call_requires(*parse, (s,)),
        ensures
            reads_name(*m, *parse, r),
    {
        match table_get(m, "name") {
            Some(v) => match v.as_str() {
                Some(name) => match (*parse)(name) {
                    Some(base) => Ok(base),
                    None => config_error("'name' isn't a proper, base name for a device"),
                },
                None => config_error("'name' config parameter should be a string"),
            },
            None => config_error("missing `name` parameter in `vars` entry"),
        }
    }

    /// Reads the initial value of a `vars` entry.
    pub fn read_initial<C: Fn(&toml::Value) -> Result<DeviceValue, Error>>(
        m: &toml::Table,
        convert: &C,
    ) -> (r: Result<DeviceValue, Error>)
        requires
            forall|v: &toml::Value| #[trigger] call_requires(*convert, (v,)),
        ensures
            reads_initial(*m, *convert, r),
    {
        match table_get(m, "initial") {
            Some(val) => (*convert)(val),
            None => config_error("missing `initial` parameter in `vars` entry"),
        }
    }

    /// Reads a `vars` entry.
    pub fn read_entries<
        P: Fn(&str) -> Option<Base>,
        C: Fn(&toml::Value) -> Result<DeviceValue, Error>,
    >(v: &toml::Value, parse: &P, convert: &C) -> (r: Result<(Base, DeviceValue), Error>)
        requires
            forall|s: &str| #[trigger] call_requires(*parse, (s,)),
            forall|v: &toml::Value| #[trigger] call_requires(*convert, (v,)),
        ensures
            reads_entry(*v, *parse, *convert, r),
    {
        match v.as_table() {
            Some(m) => match Self::read_name(m, parse) {
                Ok(base) => match Self::read_initial(m, convert) {
                    Ok(init) => Ok((base, init)),
                    Err(e) => Err(e),
                },
                Err(e) => Err(e),
            },
            None => config_error("`vars` contains an entry that isn't a map"),
        }
    }

    /// Reads the variables of a configuration.
    pub fn get_cfg_vars<
        P: Fn(&str) -> Option<Base>,
        C: Fn(&toml::Value) -> Result<DeviceValue, Error>,
    >(cfg: &toml::Table, parse: &P, convert: &C) -> (r: Result<Vec<(Base, DeviceValue)>, Error>)
        requires
            forall|s: &str| #[trigger] call_requires(*parse, (s,)),
            forall|v: &toml::Value| #[trigger] call_requires(*convert, (v,)),
        ensures
            reads_vars(*cfg, *parse, *convert, r),
    {
        let v = match table_get(cfg, "vars") {
            Some(v) => v,
            None => return config_error("missing 'vars' parameter in config"),
        };
        let items = match v.as_array() {
            Some(items) => items,
            None => return config_error("'vars' config parameter should be an array of maps"),
        };
        if items.len() == 0 {
            return config_error("'vars' config parameter should be an array of maps");
        }
        let mut vars: Vec<(Base, DeviceValue)> = Vec::new();
        let mut i: usize = 0;
        while i < items.len()
            invariant
                i <= items@.len(),
                vars@.len() == i,
                items@.len() > 0,
                entry(*cfg, "vars"@) == Some(*v),
                array_items(*v) == Some(items@),
                forall|s: &str| #[trigger] call_requires(*parse, (s,)),
                forall|v: &toml::Value| #[trigger] call_requires(*convert, (v,)),
                forall|j: int|
                    0 <= j < i ==> reads_entry(
                        items@[j],
                        *parse,
                        *convert,
                        Ok(#[trigger] vars@[j]),
                    ),
            decreases items@.len() - i,
        {
            match Self::read_entries(&items[i], parse, convert) {
                Ok(var) => vars.push(var),
                Err(e) => {
                    proof {
                        assert(reads_entry(items@[i as int], *parse, *convert, Err(e)));
                        assert forall|j: int| 0 <= j < i implies readable(
                            #[trigger] items@[j],
                            *parse,
                            *convert,
                        ) by {
                            assert(reads_entry(items@[j], *parse, *convert, Ok(vars@[j])));
                        }
                    }
                    return Err(e);
                },
            }
            i += 1;
        }
        Ok(vars)
    }

    /// The devices to be registered, in this order: one for each variable.
    pub fn register_devices<'a>(
        vars: &'a Vec<(Base, DeviceValue)>,
        max_history: Option<usize>,
    ) -> (r: Vec<Registration<'a>>)
        ensures
            views(r@) == memory_devices(vars@, max_history),
    {
        let mut r: Vec<Registration<'a>> = Vec::new();
        let mut i: usize = 0;
        while i < vars.len()
            invariant
                i <= vars@.len(),
                r@.len() == i,
                forall|j: int|
                    0 <= j < i ==> (#[trigger] r@[j])@ == memory_device(vars@[j].0, max_history),
            decreases vars@.len() - i,
        {
            r.push(
                Registration {
                    name: vars[i].0.name.as_str(),
                    subpath: None,
                    units: None,
                    channel: Channel::ReadWrite,
                    max_history,
                },
            );
            i += 1;
        }
        assert(views(r@) =~= memory_devices(vars@, max_history));
        r
    }

    /// Takes note of the answer to the request for a device. A refusal ends the
    /// registration. A device that was added comes with the value that the backend
    /// remembers of it, and joins the set. Then the result is the value to be
    /// written to the backend at once: the initial one, unless the remembered one
    /// is of the same type.
    pub fn register_device(
        devs: &mut Devices,
        reply: Result<Option<DeviceValue>, Error>,
        init_val: &DeviceValue,
    ) -> (r: Result<Option<DeviceValue>, Error>)
        ensures
            match reply {
                Ok(last) => {
                    &&& joined(*old(devs), *final(devs), *init_val)
                    &&& r == Ok::<Option<DeviceValue>, Error>(due_at_start(last, *init_val))
                },
                Err(e) => *final(devs) == *old(devs) && r == Err::<Option<DeviceValue>, Error>(e),
            },
    {
        let last = match reply {
            Ok(last) => last,
            Err(e) => return Err(e),
        };
        devs.set.push(get_validator(init_val));
        assert(devs.set@.drop_last() =~= old(devs).set@);
        match last {
            Some(v) => if v.is_same_type(init_val) {
                Ok(None)
            } else {
                Ok(Some(init_val.duplicate()))
            },
            None => Ok(Some(init_val.duplicate())),
        }
    }
}

} // verus!
