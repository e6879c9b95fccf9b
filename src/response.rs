use vstd::prelude::*;

verus! {

/// The value that `pairs` holds under `key`: the first pair with that key
/// decides, and `None` where no pair has it.
pub open spec fn lookup(pairs: Seq<(String, String)>, key: Seq<char>) -> Option<Seq<char>>
    decreases pairs.len(),
{
    if pairs.len() == 0 {
        None
    } else if pairs[0].0@ == key {
        Some(pairs[0].1@)
    } else {
        lookup(pairs.drop_first(), key)
    }
}

/// The `status` field of a reply, if it has one.
pub open spec fn status_field(pairs: Seq<(String, String)>) -> Option<Seq<char>> {
    lookup(pairs, "status"@)
}

/// The status of a poll: the reply's `status` field, or `None` where the
/// request failed or the reply has no such field.
pub open spec fn reply_status(reply: Option<&Vec<(String, String)>>) -> Option<Seq<char>> {
    match reply {
        Some(pairs) => status_field(pairs@),
        None => None,
    }
}

/// Whether a status is one that the device promises: `enabled` or `disabled`.
pub open spec fn is_known_status(status: Option<Seq<char>>) -> bool {
    status == Some("enabled"@) || status == Some("disabled"@)
}

/// What the `status` field of a reply says.
#[derive(Clone, Debug)]
pub enum Reading {
    /// Blocking is on.
    Enabled,
    /// Blocking is off.
    Disabled,
    /// The field holds a value that the device does not promise.
    Unexpected(String),
    /// The reply has no `status` field.
    Missing,
}

/// How `reading` stands for the status `status`.
pub open spec fn reads_as(reading: Reading, status: Option<Seq<char>>) -> bool {
    match status {
        None => reading is Missing,
        Some(v) => if v == "enabled"@ {
            reading is Enabled
        } else if v == "disabled"@ {
            reading is Disabled
        } else {
            reading matches Reading::Unexpected(s) && s@ == v
        },
    }
}

/// The value under `key` in a decoded reply.
pub fn field(pairs: &Vec<(String, String)>, key: &String) -> (r: Option<String>)
    ensures
        r matches Some(v) ==> lookup(pairs@, key@) == Some(v@),
        r is None ==> lookup(pairs@, key@) is None,
{
    let mut i: usize = 0;
    assert(pairs@.skip(0) =~= pairs@);
    while i < pairs.len()
        invariant
            i <= pairs@.len(),
            lookup(pairs@, key@) == lookup(pairs@.skip(i as int), key@),
        decreases pairs@.len() - i,
    {
        assert(pairs@.skip(i as int).drop_first() =~= pairs@.skip(i + 1));
        if pairs[i].0 == *key {
            return Some(pairs[i].1.clone());
        }
        i = i + 1;
    }
    None
}

/// Reads the `status` field of a decoded reply.
pub fn read_status(pairs: &Vec<(String, String)>) -> (r: Reading)
    ensures
        reads_as(r, status_field(pairs@)),
{
    let status_key = String::from_str("status");
    proof {
        reveal_strlit("status");
    }
    match field(pairs, &status_key) {
        None => Reading::Missing,
        Some(v) => {
            if v == String::from_str("enabled") {
                Reading::Enabled
            } else if v == String::from_str("disabled") {
                Reading::Disabled
            } else {
                Reading::Unexpected(v)
            }
        },
    }
}

} // verus!
