use vstd::prelude::*;
use crate::decimal::{decimal, decimal_reads_back, decimal_text, digits_value, is_digit};
use crate::options::source_name_round_trip;
use crate::options::ComponentSource;

verus! {

/// The environment variable through which a guest learns its instance number.
pub fn instance_env_var() -> (name: &'static str)
    ensures
        name@ == "INSTANCE_NUMBER"@,
{
    "INSTANCE_NUMBER"
}

/// The guest's measurement of its call into the host.
pub open spec fn spec_guest_to_host_line(instance: Seq<char>, elapsed_micros: nat) -> Seq<char> {
    "instance="@ + instance + ",action=guest-to-host,elapsed="@ + decimal(elapsed_micros)
}

/// The simulated host's measurement of its call into the guest.
pub open spec fn spec_host_to_guest_line(
    instance: Seq<char>,
    source: ComponentSource,
    elapsed_micros: nat,
) -> Seq<char> {
    "instance="@ + instance + ",action=host-to-guest-"@ + source.spec_name() + ",elapsed="@
        + decimal(elapsed_micros)
}

/// The Linux host's line about the guest's `start` result.
pub open spec fn spec_start_result_line(result: Result<(), ()>) -> Seq<char> {
    match result {
        Ok(_) => "res: Ok(())"@,
        Err(_) => "res: Err(())"@,
    }
}

/// `instance=<instance>,action=guest-to-host,elapsed=<microseconds>`.
pub fn guest_to_host_line(instance: &str, elapsed_micros: u128) -> (line: String)
    ensures
        line@ == spec_guest_to_host_line(instance@, elapsed_micros as nat),
{
    let mut line = "instance=".to_owned();
    line.append(instance);
    line.append(",action=guest-to-host,elapsed=");
    let micros = decimal_text(elapsed_micros);
    line.append(micros.as_str());
    line
}

/// `instance=<instance>,action=host-to-guest-<language>,elapsed=<microseconds>`.
pub fn host_to_guest_line(instance: &str, source: ComponentSource, elapsed_micros: u128) -> (line: String)
    ensures
        line@ == spec_host_to_guest_line(instance@, source, elapsed_micros as nat),
{
    let mut line = "instance=".to_owned();
    line.append(instance);
    line.append(",action=host-to-guest-");
    line.append(source.as_str());
    line.append(",elapsed=");
    let micros = decimal_text(elapsed_micros);
    line.append(micros.as_str());
    line
}

/// `res: Ok(())` or `res: Err(())`.
pub fn start_result_line(result: Result<(), ()>) -> (line: String)
    ensures
        line@ == spec_start_result_line(result),
{
    match result {
        Ok(_) => "res: Ok(())".to_owned(),
        Err(_) => "res: Err(())".to_owned(),
    }
}

/// The guest's line splits back into its fields: `instance=`, the instance
/// text exactly as given, `,action=guest-to-host,elapsed=`, and then only
/// digits, which read back as the full elapsed microsecond count.
pub proof fn guest_to_host_line_splits(instance: Seq<char>, elapsed_micros: nat)
    ensures
        ({
            let line = spec_guest_to_host_line(instance, elapsed_micros);
            let a = "instance="@.len() as int;
            let b = a + instance.len();
            let c = b + ",action=guest-to-host,elapsed="@.len();
            &&& c < line.len()
            &&& line.subrange(0, a) == "instance="@
            &&& line.subrange(a, b) == instance
            &&& line.subrange(b, c) == ",action=guest-to-host,elapsed="@
            &&& forall|i: int| c <= i < line.len() ==> is_digit(#[trigger] line[i])
            &&& digits_value(line.subrange(c, line.len() as int)) == elapsed_micros
        }),
{
    let line = spec_guest_to_host_line(instance, elapsed_micros);
    let p = "instance="@;
    let q = ",action=guest-to-host,elapsed="@;
    let d = decimal(elapsed_micros);
    decimal_reads_back(elapsed_micros);
    let a = p.len() as int;
    let b = a + instance.len();
    let c = b + q.len();
    assert(line == p + instance + q + d);
    assert(line.subrange(0, a) =~= p);
    assert(line.subrange(a, b) =~= instance);
    assert(line.subrange(b, c) =~= q);
    assert(line.subrange(c, line.len() as int) =~= d);
    assert forall|i: int| c <= i < line.len() implies is_digit(#[trigger] line[i]) by {
        assert(line[i] == d[i - c]);
    }
}

/// The simulated host's line splits back into its fields: `instance=`, the
/// instance text exactly as given, `,action=host-to-guest-`, the guest
/// language's name (which reads back as that language), `,elapsed=`, and then
/// only digits, which read back as the full elapsed microsecond count.
pub proof fn host_to_guest_line_splits(
    instance: Seq<char>,
    source: ComponentSource,
    elapsed_micros: nat,
)
    ensures
        ({
            let line = spec_host_to_guest_line(instance, source, elapsed_micros);
            let a = "instance="@.len() as int;
            let b = a + instance.len();
            let c = b + ",action=host-to-guest-"@.len();
            let e = c + source.spec_name().len();
            let f = e + ",elapsed="@.len();
            &&& f < line.len()
            &&& line.subrange(0, a) == "instance="@
            &&& line.subrange(a, b) == instance
            &&& line.subrange(b, c) == ",action=host-to-guest-"@
            &&& ComponentSource::spec_parse(line.subrange(c, e)) == Some(source)
            &&& line.subrange(e, f) == ",elapsed="@
            &&& forall|i: int| f <= i < line.len() ==> is_digit(#[trigger] line[i])
            &&& digits_value(line.subrange(f, line.len() as int)) == elapsed_micros
        }),
{
    let line = spec_host_to_guest_line(instance, source, elapsed_micros);
    let p = "instance="@;
    let q = ",action=host-to-guest-"@;
    let nm = source.spec_name();
    let r = ",elapsed="@;
    let d = decimal(elapsed_micros);
    decimal_reads_back(elapsed_micros);
    source_name_round_trip(source);
    let a = p.len() as int;
    let b = a + instance.len();
    let c = b + q.len();
    let e = c + nm.len();
    let f = e + r.len();
    assert(line == p + instance + q + nm + r + d);
    assert(line.subrange(0, a) =~= p);
    assert(line.subrange(a, b) =~= instance);
    assert(line.subrange(b, c) =~= q);
    assert(line.subrange(c, e) =~= nm);
    assert(line.subrange(e, f) =~= r);
    assert(line.subrange(f, line.len() as int) =~= d);
    assert forall|i: int| f <= i < line.len() implies is_digit(#[trigger] line[i]) by {
        assert(line[i] == d[i - f]);
    }
}

} // verus!
