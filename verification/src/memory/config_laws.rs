//! What holds of reading the configuration, and of the devices that come of it.

use crate::device::{Base, DeviceValue};
use crate::driver::Channel;
use crate::error::{is_config_error, Error};
use crate::memory::config::{array_items, string_chars, table_entries, value_table};
use crate::memory::drv_memory::{
    due_at_start, entry, joined, memory_devices, readable, reads_entry, reads_initial, reads_name,
    reads_vars, Devices, PollAction, PollEvent, TypeChecker,
};
use vstd::prelude::*;

verus! {

/// An entry is there exactly if the table has its key, and is what the table has
/// there.
pub proof fn entries_are_those_of_the_table(table: toml::Table, key: Seq<char>)
    ensures
        entry(table, key) is Some <==> table_entries(table).dom().contains(key),
        entry(table, key) matches Some(v) ==> table_entries(table)[key] == v,
{
}

/// A configuration error is told by its text.
pub proof fn config_errors_are_told_by_their_text<T>(text: String, expected: Seq<char>, value: T)
    ensures
        is_config_error(Err::<T, Error>(Error::ConfigError(text)), expected) <==> text@ == expected,
        !is_config_error(Err::<T, Error>(Error::TypeError), expected),
        !is_config_error(Ok::<T, Error>(value), expected),
{
}

/// An entry without a name, or with one that is no string, is an error that says so.
pub proof fn names_have_to_be_strings<P: Fn(&str) -> Option<Base>>(
    m: toml::Table,
    parse: P,
    r: Result<Base, Error>,
)
    requires
        reads_name(m, parse, r),
    ensures
        entry(m, "name"@) is None ==> is_config_error(
            r,
            "missing `name` parameter in `vars` entry"@,
        ),
        entry(m, "name"@) matches Some(v) ==> (string_chars(v) is None ==> is_config_error(
            r,
            "'name' config parameter should be a string"@,
        )),
{
}

/// A name that is a string is read as what `parse` makes of it, and if that is
/// nothing, it is an error that says so.
pub proof fn names_are_parsed<P: Fn(&str) -> Option<Base>>(
    m: toml::Table,
    parse: P,
    v: toml::Value,
    text: Seq<char>,
    expected: Option<Base>,
    r: Result<Base, Error>,
)
    requires
        entry(m, "name"@) == Some(v),
        string_chars(v) == Some(text),
        forall|s: &str, o: Option<Base>|
            s@ == text && #[trigger] call_ensures(parse, (s,), o) ==> o == expected,
        reads_name(m, parse, r),
    ensures
        expected matches Some(base) ==> r == Ok::<Base, Error>(base),
        expected is None ==> is_config_error(r, "'name' isn't a proper, base name for a device"@),
{
}

/// An initial value is read as what `convert` makes of it. That it is missing is an
/// error that says so.
pub proof fn initial_values_are_converted<C: Fn(&toml::Value) -> Result<DeviceValue, Error>>(
    m: toml::Table,
    convert: C,
    expected: Result<DeviceValue, Error>,
    r: Result<DeviceValue, Error>,
)
    requires
        reads_initial(m, convert, r),
    ensures
        entry(m, "initial"@) is None ==> is_config_error(
            r,
            "missing `initial` parameter in `vars` entry"@,
        ),
        entry(m, "initial"@) matches Some(v) ==> ((forall|o: Result<DeviceValue, Error>| #[trigger]
            call_ensures(convert, (&v,), o) ==> o == expected) ==> r == expected),
{
}

/// An entry that is no table is an error that says so. Of one that is, the name and
/// the initial value are read: if both can be, they are the result, and otherwise
/// the error is that of the one that cannot, where the name comes first.
pub proof fn entries_are_a_name_and_a_value<
    P: Fn(&str) -> Option<Base>,
    C: Fn(&toml::Value) -> Result<DeviceValue, Error>,
>(v: toml::Value, parse: P, convert: C, r: Result<(Base, DeviceValue), Error>)
    requires
        reads_entry(v, parse, convert, r),
    ensures
        value_table(v) is None ==> is_config_error(r, "`vars` contains an entry that isn't a map"@),
        value_table(v) matches Some(m) ==> {
            &&& r matches Ok((base, init)) ==> reads_name(m, parse, Ok(base)) && reads_initial(
                m,
                convert,
                Ok(init),
            )
            &&& (forall|e: Error| !reads_name(m, parse, Err(e))) && (forall|e: Error|
                !reads_initial(m, convert, Err(e))) ==> r is Ok
            &&& (forall|base: Base| !reads_name(m, parse, Ok(base))) ==> (r matches Err(e)
                && reads_name(m, parse, Err(e)))
            &&& (forall|e: Error| !reads_name(m, parse, Err(e))) && (forall|init: DeviceValue|
                !reads_initial(m, convert, Ok(init))) ==> (r matches Err(e) && reads_initial(
                m,
                convert,
                Err(e),
            ))
        },
{
}

/// A configuration without variables, with variables that are no list, or with an
/// empty list is an error that says so.
pub proof fn variables_have_to_be_a_list<
    P: Fn(&str) -> Option<Base>,
    C: Fn(&toml::Value) -> Result<DeviceValue, Error>,
>(cfg: toml::Table, parse: P, convert: C, r: Result<Vec<(Base, DeviceValue)>, Error>)
    requires
        reads_vars(cfg, parse, convert, r),
    ensures
        entry(cfg, "vars"@) is None ==> is_config_error(r, "missing 'vars' parameter in config"@),
        entry(cfg, "vars"@) matches Some(v) ==> (array_items(v) is None || array_items(v)->0.len()
            == 0 ==> is_config_error(r, "'vars' config parameter should be an array of maps"@)),
{
}

/// The variables are those of the list, all of them and in its order. If each can be
/// read, so can the list.
pub proof fn variables_are_read_in_order<
    P: Fn(&str) -> Option<Base>,
    C: Fn(&toml::Value) -> Result<DeviceValue, Error>,
>(
    cfg: toml::Table,
    parse: P,
    convert: C,
    v: toml::Value,
    items: Seq<toml::Value>,
    r: Result<Vec<(Base, DeviceValue)>, Error>,
)
    requires
        entry(cfg, "vars"@) == Some(v),
        array_items(v) == Some(items),
        items.len() > 0,
        reads_vars(cfg, parse, convert, r),
    ensures
        r matches Ok(vars) ==> vars@.len() == items.len() && forall|i: int|
            0 <= i < items.len() ==> reads_entry(
                items[i],
                parse,
                convert,
                Ok(#[trigger] vars@[i]),
            ),
        (forall|i: int, e: Error|
            0 <= i < items.len() ==> !(#[trigger] reads_entry(items[i], parse, convert, Err(e))))
            ==> r is Ok,
{
}

/// The first variable that cannot be read decides the error: where the one at `k` is
/// the first that cannot be read with success, and those before it cannot be read
/// with an error, the error is that of `k`.
pub proof fn first_bad_variable_decides<
    P: Fn(&str) -> Option<Base>,
    C: Fn(&toml::Value) -> Result<DeviceValue, Error>,
>(
    cfg: toml::Table,
    parse: P,
    convert: C,
    v: toml::Value,
    items: Seq<toml::Value>,
    k: int,
    r: Result<Vec<(Base, DeviceValue)>, Error>,
)
    requires
        entry(cfg, "vars"@) == Some(v),
        array_items(v) == Some(items),
        0 <= k < items.len(),
        forall|i: int, e: Error|
            0 <= i < k ==> !(#[trigger] reads_entry(items[i], parse, convert, Err(e))),
        forall|var: (Base, DeviceValue)| !(#[trigger] reads_entry(items[k], parse, convert, Ok(var))),
        reads_vars(cfg, parse, convert, r),
    ensures
        r matches Err(e) && reads_entry(items[k], parse, convert, Err(e)),
{
    assert(!readable(items[k], parse, convert));
    if let Ok(vars) = r {
        assert(reads_entry(items[k], parse, convert, Ok(vars@[k])));
    }
}

/// A test passes the values of its own type and no others.
pub proof fn tests_pass_their_own_type(v: DeviceValue)
    ensures
        TypeChecker::Bool.admits(v) <==> v is Bool,
        TypeChecker::Int.admits(v) <==> v is Int,
        TypeChecker::Flt.admits(v) <==> v is Flt,
        TypeChecker::Str.admits(v) <==> v is Str,
        TypeChecker::Color.admits(v) <==> v is Color,
{
}

/// A setting that passes its device's test is the result, and its client is told of
/// it. Any other is refused with a type error, and the device is asked again. A
/// device that has no setting is followed by the next one, and the last one by the
/// end of the round.
pub proof fn devices_are_asked_in_turn<S>(devs: Devices, idx: usize, val: DeviceValue, client: S)
    requires
        idx < devs.set@.len(),
    ensures
        devs.turn_to(0) == PollAction::Ask(0),
        devs.set@[idx as int].admits(val) ==> {
            let step = devs.after_asking(idx as int, PollEvent::Setting(val, client));
            &&& step.answer == Some((client, Ok::<DeviceValue, Error>(val)))
            &&& step.action == PollAction::Ready(idx, val)
        },
        !devs.set@[idx as int].admits(val) ==> {
            let step = devs.after_asking(idx as int, PollEvent::Setting(val, client));
            &&& step.answer == Some((client, Err::<DeviceValue, Error>(Error::TypeError)))
            &&& step.action == PollAction::Ask(idx)
        },
        ({
            let step = devs.after_asking(idx as int, PollEvent::<S>::Nothing);
            &&& step.answer is None
            &&& idx + 1 < devs.set@.len() ==> (step.action matches PollAction::Ask(next) && next
                == idx + 1)
            &&& idx + 1 == devs.set@.len() ==> step.action is Pending
        }),
{
    assert(devs.set@.len() == devs.set.len());
}

/// Without devices there is nobody to ask.
pub proof fn nobody_is_asked_without_devices(devs: Devices)
    requires
        devs.set@.len() == 0,
    ensures
        devs.turn_to(0) is Pending,
{
}

/// Each variable asks for a device of its own name, in the order of the list, without
/// a path or units, that can be set and keeps the given history.
pub proof fn variables_ask_for_devices(
    vars: Seq<(Base, DeviceValue)>,
    max_history: Option<usize>,
    i: int,
)
    requires
        0 <= i < vars.len(),
    ensures
        ({
            let list = memory_devices(vars, max_history);
            &&& list.len() == vars.len()
            &&& list[i].name == vars[i].0.name@
            &&& list[i].subpath is None
            &&& list[i].units is None
            &&& list[i].channel == Channel::ReadWrite
            &&& list[i].max_history == max_history
        }),
{
}

/// A device that is added comes last and takes the values of its own type. Those
/// before it stay.
pub proof fn added_devices_come_last(
    before: Devices,
    after: Devices,
    init_val: DeviceValue,
    i: int,
    v: DeviceValue,
)
    requires
        joined(before, after, init_val),
        0 <= i < before.set@.len(),
    ensures
        after.set@.len() == before.set@.len() + 1,
        after.set@[i] == before.set@[i],
        after.set@[before.set@.len() as int].admits(v) <==> init_val.same_type(v),
{
    assert(after.set@.drop_last()[i] == after.set@[i]);
    assert(after.set@.last().admits(v) <==> init_val.same_type(v));
}

/// The same of the first device.
pub proof fn first_device_takes_its_type(
    before: Devices,
    after: Devices,
    init_val: DeviceValue,
    v: DeviceValue,
)
    requires
        joined(before, after, init_val),
        before.set@.len() == 0,
    ensures
        after.set@.len() == 1,
        after.set@[0].admits(v) <==> init_val.same_type(v),
{
    assert(after.set@.last().admits(v) <==> init_val.same_type(v));
}

/// The initial value is written when the backend remembers no value, or one of
/// another type. A remembered value of its type stays.
pub proof fn initial_value_is_written_if_needed(init_val: DeviceValue, last: DeviceValue)
    ensures
        due_at_start(None, init_val) == Some(init_val),
        last.same_type(init_val) ==> due_at_start(Some(last), init_val) is None,
        !last.same_type(init_val) ==> due_at_start(Some(last), init_val) == Some(init_val),
{
}

} // verus!
