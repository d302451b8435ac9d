//! Whole-contig requests against an AGC archive.
use vstd::prelude::*;

use crate::paths::concat;

verus! {

/// The longest contig whose positions the archive's range query can
/// address: its positions are 32-bit, from 0 to `i32::MAX`.
pub const MAX_CONTIG_LENGTH: i64 = 2147483648;

/// The message for a contig that is absent or empty.
pub open spec fn missing_contig_message(sample_name: Seq<char>, contig_name: Seq<char>) -> Seq<
    char,
> {
    "Contig "@ + contig_name + "@"@ + sample_name + " not found or has zero length"@
}

/// The message for a contig longer than a range query can address.
pub open spec fn long_contig_message(sample_name: Seq<char>, contig_name: Seq<char>) -> Seq<char> {
    "Contig "@ + contig_name + "@"@ + sample_name + " is too long for a 32-bit position range"@
}

/// `Contig {contig}@{sample}` followed by `rest`.
fn contig_message(sample_name: &str, contig_name: &str, rest: &str) -> (r: String)
    ensures
        r@ == "Contig "@ + contig_name@ + "@"@ + sample_name@ + rest@,
{
    let a = concat("Contig ", contig_name);
    let b = concat(a.as_str(), "@");
    let c = concat(b.as_str(), sample_name);
    concat(c.as_str(), rest)
}

/// The inclusive range of positions that covers a whole contig of
/// `length` bases, as the archive's range query takes it: from 0 to
/// `length - 1`. A length that is not positive means that the contig is
/// absent or empty; one beyond `MAX_CONTIG_LENGTH` cannot be addressed.
pub fn full_contig_range(sample_name: &str, contig_name: &str, length: i64) -> (r: Result<
    (i32, i32),
    String,
>)
    ensures
        length <= 0 ==> (r matches Err(m) && m@ == missing_contig_message(
            sample_name@,
            contig_name@,
        )),
        length > MAX_CONTIG_LENGTH ==> (r matches Err(m) && m@ == long_contig_message(
            sample_name@,
            contig_name@,
        )),
        0 < length <= MAX_CONTIG_LENGTH ==> (r matches Ok((start, end)) && start == 0 && end
            == length - 1),
{
    if length <= 0 {
        return Err(contig_message(sample_name, contig_name, " not found or has zero length"));
    }
    if length > MAX_CONTIG_LENGTH {
        return Err(contig_message(sample_name, contig_name, " is too long for a 32-bit position range"));
    }
    Ok((0, (length - 1) as i32))
}

} // verus!
