use vstd::prelude::*;

verus! {

/// Why a response body is not a valid answer.
#[derive(Clone, Copy, Debug, PartialEq, Eq)]
pub enum DecodeError {
    /// The character at `position` (counted in characters) is not a day
    /// status digit.
    InvalidCharacter { position: usize, found: char },
    /// A single day was asked for, and the body holds `length` statuses.
    NotSingle { length: usize },
}

/// The status that a character stands for: `0` workday, `1` day off, `2`
/// shortened day, `3` unknown day. Any other character stands for none.
pub open spec fn status_value(c: char) -> Option<u32> {
    if c == '0' {
        Some(0)
    } else if c == '1' {
        Some(1)
    } else if c == '2' {
        Some(2)
    } else if c == '3' {
        Some(3)
    } else {
        None
    }
}

/// Every character of `s` is a status digit.
pub open spec fn all_statuses(s: Seq<char>) -> bool {
    forall|i: int| 0 <= i < s.len() ==> #[trigger] status_value(s[i]) is Some
}

/// The statuses of `s`, one per character, in order.
pub open spec fn statuses(s: Seq<char>) -> Seq<u32> {
    s.map_values(|c: char| status_value(c).unwrap_or(0))
}

/// `p` is the first position of `s` that holds no status digit.
pub open spec fn first_invalid(s: Seq<char>, p: int) -> bool {
    &&& 0 <= p < s.len()
    &&& status_value(s[p]) is None
    &&& all_statuses(s.take(p))
}

fn status_of(c: char) -> (r: Option<u32>)
    ensures
        r == status_value(c),
{
    match c {
        '0' => Some(0),
        '1' => Some(1),
        '2' => Some(2),
        '3' => Some(3),
        _ => None,
    }
}

/// Decodes a response body into its day statuses, one per character, in
/// order. The first character that is no status digit fails the whole body.
pub fn to_vec(result: String) -> (r: Result<Vec<u32>, DecodeError>)
    ensures
        r is Ok <==> all_statuses(result@),
        r matches Ok(v) ==> v@ == statuses(result@),
        r matches Err(e) ==> (e matches DecodeError::InvalidCharacter { position, found } && first_invalid(
            result@,
            position as int,
        ) && found == result@[position as int]),
{
    let text = result.as_str();
    let mut v: Vec<u32> = Vec::new();
    for c in it: text.chars()
        invariant
            it.seq() == result@,
            v@.len() == it.index(),
            all_statuses(result@.take(it.index())),
            v@ == statuses(result@.take(it.index())),
    {
        let ghost i = it.index();
        assert(c == result@[i]);
        match status_of(c) {
            Some(d) => {
                v.push(d);
                assert(result@.take(i + 1) =~= result@.take(i).push(c));
                assert(v@ =~= statuses(result@.take(i + 1)));
            },
            None => {
                return Err(DecodeError::InvalidCharacter { position: v.len(), found: c });
            },
        }
    }
    assert(result@.take(v@.len() as int) =~= result@);
    Ok(v)
}

/// Decodes the body of a single-day query: exactly one status digit.
/// A character that is no status digit is reported first; otherwise a body
/// of any other length than one fails with its length.
pub fn decode_single(result: String) -> (r: Result<u32, DecodeError>)
    ensures
        r is Ok <==> all_statuses(result@) && result@.len() == 1,
        r matches Ok(d) ==> d == status_value(result@[0])->0,
        !all_statuses(result@) ==> (r matches Err(DecodeError::InvalidCharacter { position, found })
            && first_invalid(result@, position as int) && found == result@[position as int]),
        all_statuses(result@) && result@.len() != 1 ==> (r matches Err(
            DecodeError::NotSingle { length },
        ) && length == result@.len()),
{
    let v = match to_vec(result) {
        Ok(v) => v,
        Err(e) => return Err(e),
    };
    if v.len() == 1 {
        Ok(v[0])
    } else {
        Err(DecodeError::NotSingle { length: v.len() })
    }
}

} // verus!
