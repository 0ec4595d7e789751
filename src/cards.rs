//! Assembling the card list fragment from the cards rendered one by one.
use vstd::prelude::*;

verus! {

/// The lowercase hexadecimal digit for `n`, below sixteen.
pub open spec fn hex_char(n: u128) -> char {
    seq!['0', '1', '2', '3', '4', '5', '6', '7', '8', '9', 'a', 'b', 'c', 'd', 'e', 'f'][n as int]
}

/// The 32 hexadecimal digits of `id`, most significant first.
pub open spec fn hex_digits(id: u128) -> Seq<char> {
    Seq::new(32, |i: int| hex_char((id >> ((124 - 4 * i) as u128)) & 15))
}

/// The hyphenated text of the UUID whose 128-bit value is `id`, as in
/// `67e55044-10b1-426f-9247-bb680e5fe0c8`.
pub open spec fn uuid_text(id: u128) -> Seq<char> {
    let d = hex_digits(id);
    d.subrange(0, 8) + seq!['-'] + d.subrange(8, 12) + seq!['-'] + d.subrange(12, 16) + seq!['-']
        + d.subrange(16, 20) + seq!['-'] + d.subrange(20, 32)
}

/// Relies on `uuid::Uuid::from_u128` and its `Display`: the hyphenated
/// lowercase text of the UUID.
#[verifier::external_body]
fn format_uuid(id: u128) -> (s: String)
    ensures
        s@ == uuid_text(id),
{
    uuid::Uuid::from_u128(id).to_string()
}

/// The message for an entry `id` that the store does not have.
pub open spec fn not_found_message(id: u128) -> Seq<char> {
    "Joy not found: "@ + uuid_text(id)
}

/// The entry to render as card `id`, from the outcome of looking it up: a
/// failed lookup passes its error on, and a missing entry is an error.
pub fn card_entry<J>(id: u128, fetched: Result<Option<J>, String>) -> (r: Result<J, String>)
    ensures
        match fetched {
            Ok(Some(j)) => r == Ok::<J, String>(j),
            Ok(None) => r is Err && r->Err_0@ == not_found_message(id),
            Err(e) => r == Err::<J, String>(e),
        },
{
    match fetched {
        Ok(Some(j)) => Ok(j),
        Ok(None) => {
            let mut m = String::from_str("Joy not found: ");
            let t = format_uuid(id);
            m.append(t.as_str());
            Err(m)
        },
        Err(e) => Err(e),
    }
}

/// The cards concatenated in order, or the first error among them.
pub open spec fn joined(rs: Seq<Result<String, String>>) -> Result<Seq<char>, Seq<char>>
    decreases rs.len(),
{
    if rs.len() == 0 {
        Ok(Seq::empty())
    } else {
        match joined(rs.drop_last()) {
            Err(e) => Err(e),
            Ok(acc) => match rs.last() {
                Ok(s) => Ok(acc + s@),
                Err(e) => Err(e@),
            },
        }
    }
}

/// Joins the rendered cards into one fragment; one failed card fails the
/// whole list, with the first error.
pub fn join_cards(results: &Vec<Result<String, String>>) -> (r: Result<String, String>)
    ensures
        match joined(results@) {
            Ok(s) => r is Ok && r->Ok_0@ == s,
            Err(e) => r is Err && r->Err_0@ == e,
        },
{
    let mut out = String::new();
    let mut i: usize = 0;
    while i < results.len()
        invariant
            i <= results@.len(),
            joined(results@.subrange(0, i as int)) == Ok::<Seq<char>, Seq<char>>(out@),
        decreases results@.len() - i,
    {
        proof {
            let next = results@.subrange(0, i + 1);
            assert(next.drop_last() =~= results@.subrange(0, i as int));
        }
        match &results[i] {
            Ok(s) => out.append(s.as_str()),
            Err(e) => {
                proof {
                    lemma_joined_keeps_error(results@, i + 1);
                }
                return Err(e.clone());
            },
        }
        i = i + 1;
    }
    proof {
        assert(results@.subrange(0, results@.len() as int) =~= results@);
    }
    Ok(out)
}

/// Once a prefix of the cards holds an error, the whole list fails with it.
proof fn lemma_joined_keeps_error(rs: Seq<Result<String, String>>, k: int)
    requires
        0 <= k <= rs.len(),
        joined(rs.subrange(0, k)) is Err,
    ensures
        joined(rs) == joined(rs.subrange(0, k)),
    decreases rs.len() - k,
{
    if k < rs.len() {
        let next = rs.subrange(0, k + 1);
        assert(next.drop_last() =~= rs.subrange(0, k));
        lemma_joined_keeps_error(rs, k + 1);
    } else {
        assert(rs.subrange(0, k) =~= rs);
    }
}

} // verus!
