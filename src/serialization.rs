//! Wire formats of telemetry records.
use vstd::prelude::*;
use crate::metrics::Metrics;

verus! {

/// Available serialization formats.
#[derive(Clone, Copy, Debug, PartialEq, Eq, Structural)]
pub enum Format {
    /// Human-readable, self-describing text.
    Json,
    /// Compact binary.
    MessagePack,
}

impl Default for Format {
    fn default() -> (r: Self)
        ensures
            r == Format::Json,
    {
        Format::Json
    }
}

/// The format used when none is configured.
pub fn default_serialization_format() -> (r: Format)
    ensures
        r == Format::Json,
{
    Format::Json
}

/// Maps a configured format to the codec's format (the two coincide).
pub fn convert_format(format: &Format) -> (r: Format)
    ensures
        r == *format,
{
    match format {
        Format::Json => Format::Json,
        Format::MessagePack => Format::MessagePack,
    }
}

/// The decimal digit character for `d < 10`.
pub open spec fn digit(d: nat) -> char {
    seq!['0', '1', '2', '3', '4', '5', '6', '7', '8', '9'][d as int]
}

/// The decimal notation of `n`, without leading zeros.
pub open spec fn decimal(n: nat) -> Seq<char>
    decreases n,
{
    if n < 10 {
        seq![digit(n)]
    } else {
        decimal(n / 10).push(digit(n % 10))
    }
}

/// Writes an integer in decimal.
///
/// Relies on `u128`'s `Display` (through `to_string`): decimal digits, no
/// sign, no leading zeros.
#[verifier::external_body]
fn decimal_text(n: u128) -> (r: String)
    ensures
        r@ == decimal(n as nat),
{
    n.to_string()
}

/// A string of `k` zeros.
pub open spec fn zeros(k: nat) -> Seq<char> {
    Seq::new(k, |i: int| '0')
}

/// `f` over a denominator of `10^w`, with trailing zeros of `f` cancelled.
pub open spec fn strip_zeros(f: nat, w: nat) -> (nat, nat)
    decreases w,
{
    if w == 0 || f == 0 || f % 10 != 0 {
        (f, w)
    } else {
        strip_zeros(f / 10, (w - 1) as nat)
    }
}

/// The digits after the decimal point of `frac` millionths: at least one,
/// without trailing zeros beyond the first.
pub open spec fn frac_text(frac: nat) -> Seq<char> {
    if frac == 0 {
        seq!['0']
    } else {
        let (f, w) = strip_zeros(frac, 6);
        let d = decimal(f);
        zeros(if w >= d.len() { (w - d.len()) as nat } else { 0 }) + d
    }
}

/// A duration of `ns` nanoseconds written as milliseconds with a decimal
/// point, as a JSON number.
pub open spec fn ms_text(ns: u128) -> Seq<char> {
    decimal((ns / 1_000_000) as nat) + seq!['.'] + frac_text((ns % 1_000_000) as nat)
}

/// The member `,"name":<ms>` of an optional metric, or nothing.
pub open spec fn field_text(name: Seq<char>, v: Option<u128>) -> Seq<char> {
    match v {
        Some(x) => ",\""@ + name + "\":"@ + ms_text(x),
        None => Seq::empty(),
    }
}

/// The JSON object text of a metrics record, durations in milliseconds,
/// absent metrics omitted.
pub open spec fn metrics_text(m: Metrics) -> Seq<char> {
    "{\"total_ms\":"@ + ms_text(m.total_ns) + field_text("deserialization_ms"@, m.deserialization_ns)
        + field_text("action_processing_ms"@, m.action_processing_ns) + field_text(
        "state_update_ms"@,
        m.state_update_ns,
    ) + field_text("serialization_ms"@, m.serialization_ns) + "}"@
}

fn write_ms(out: &mut String, ns: u128)
    ensures
        final(out)@ == old(out)@ + ms_text(ns),
{
    let whole = decimal_text(ns / 1_000_000);
    out.append(whole.as_str());
    proof {
        reveal_strlit(".");
        reveal_strlit("0");
    }
    out.append(".");
    let frac = ns % 1_000_000;
    if frac == 0 {
        out.append("0");
        assert(out@ =~= old(out)@ + ms_text(ns));
        return;
    }
    let mut f: u128 = frac;
    let mut w: u128 = 6;
    while w > 0 && f % 10 == 0
        invariant
            f > 0,
            w <= 6,
            strip_zeros(f as nat, w as nat) == strip_zeros(frac as nat, 6),
        decreases w,
    {
        f = f / 10;
        w = w - 1;
    }
    let digits = decimal_text(f);
    let len = digits.as_str().unicode_len() as u128;
    let pad: u128 = if w >= len { w - len } else { 0 };
    let ghost before = out@;
    let mut k: u128 = 0;
    while k < pad
        invariant
            k <= pad,
            out@ == before + zeros(k as nat),
        decreases pad - k,
    {
        proof {
            reveal_strlit("0");
        }
        out.append("0");
        k += 1;
        assert(out@ =~= before + zeros(k as nat));
    }
    out.append(digits.as_str());
    assert(out@ =~= old(out)@ + ms_text(ns));
}

fn write_field(out: &mut String, name: &str, v: Option<u128>)
    ensures
        final(out)@ == old(out)@ + field_text(name@, v),
{
    match v {
        Some(x) => {
            out.append(",\"");
            out.append(name);
            out.append("\":");
            write_ms(out, x);
            assert(out@ =~= old(out)@ + field_text(name@, v));
        },
        None => {
            assert(out@ =~= old(out)@ + field_text(name@, v));
        },
    }
}

/// Writes a metrics record as a JSON object whose every present duration is
/// a number of milliseconds (never a string).
pub fn metrics_to_json(m: &Metrics) -> (r: String)
    ensures
        r@ == metrics_text(*m),
{
    let mut out = "{\"total_ms\":".to_owned();
    write_ms(&mut out, m.total_ns);
    write_field(&mut out, "deserialization_ms", m.deserialization_ns);
    write_field(&mut out, "action_processing_ms", m.action_processing_ns);
    write_field(&mut out, "state_update_ms", m.state_update_ns);
    write_field(&mut out, "serialization_ms", m.serialization_ns);
    out.append("}");
    assert(out@ =~= metrics_text(*m));
    out
}

/// A decimal digit character.
pub open spec fn is_digit(c: char) -> bool {
    '0' <= c && c <= '9'
}

/// A JSON number with a fraction: an integer part without superfluous
/// leading zeros, a point, and at least one fraction digit.
pub open spec fn is_json_decimal(int_part: Seq<char>, frac_part: Seq<char>) -> bool {
    &&& int_part.len() > 0
    &&& forall|i: int| 0 <= i < int_part.len() ==> is_digit(#[trigger] int_part[i])
    &&& (int_part[0] == '0' ==> int_part.len() == 1)
    &&& frac_part.len() > 0
    &&& forall|i: int| 0 <= i < frac_part.len() ==> is_digit(#[trigger] frac_part[i])
}

proof fn lemma_decimal_digits(n: nat)
    ensures
        decimal(n).len() > 0,
        forall|i: int| 0 <= i < decimal(n).len() ==> is_digit(#[trigger] decimal(n)[i]),
        decimal(n)[0] == '0' ==> n == 0,
        n == 0 ==> decimal(n).len() == 1,
    decreases n,
{
    if n >= 10 {
        lemma_decimal_digits(n / 10);
        let d = decimal(n / 10);
        assert(decimal(n)[0] == d[0]);
        assert forall|i: int| 0 <= i < decimal(n).len() implies is_digit(#[trigger] decimal(n)[i]) by {
            if i < d.len() {
                assert(decimal(n)[i] == d[i]);
            }
        }
    }
}

/// Every duration in the text encoding of metrics is a JSON number (an
/// integer part, a point and fraction digits), never a string, whether the
/// number of milliseconds is integral or fractional.
pub proof fn lemma_metric_values_are_numbers(ns: u128)
    ensures
        ms_text(ns) == decimal((ns / 1_000_000) as nat) + seq!['.'] + frac_text((ns % 1_000_000) as nat),
        is_json_decimal(decimal((ns / 1_000_000) as nat), frac_text((ns % 1_000_000) as nat)),
{
    lemma_decimal_digits((ns / 1_000_000) as nat);
    let frac = (ns % 1_000_000) as nat;
    if frac != 0 {
        let (f, w) = strip_zeros(frac, 6);
        lemma_decimal_digits(f);
        let d = decimal(f);
        let z = zeros(if w >= d.len() { (w - d.len()) as nat } else { 0 });
        let t = frac_text(frac);
        assert(t == z + d);
        assert forall|i: int| 0 <= i < t.len() implies is_digit(#[trigger] t[i]) by {
            if i < z.len() {
                assert(t[i] == '0');
            } else {
                assert(t[i] == d[i - z.len()]);
            }
        }
    }
}

} // verus!
