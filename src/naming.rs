//! Session identifiers and the broker queue names derived from them.
use vstd::prelude::*;

verus! {

/// The prefix of every session queue name.
pub open spec fn queue_prefix() -> Seq<char> {
    seq!['w', 'e', 'b', 's', 'o', 'c', 'k', 'e', 't', ':']
}

/// The name of the queue that belongs to the session with id `id`.
pub open spec fn queue_name_of(id: Seq<char>) -> Seq<char> {
    queue_prefix() + id
}

/// A lowercase hexadecimal digit.
pub open spec fn is_lower_hex(c: char) -> bool {
    seq!['0', '1', '2', '3', '4', '5', '6', '7', '8', '9', 'a', 'b', 'c', 'd', 'e', 'f'].contains(c)
}

/// The hyphenated lowercase text of a version-4 uuid:
/// `xxxxxxxx-xxxx-4xxx-yxxx-xxxxxxxxxxxx`, where `y` is one of `8 9 a b`.
pub open spec fn is_v4_uuid_text(s: Seq<char>) -> bool {
    &&& s.len() == 36
    &&& forall|i: int| 0 <= i < 36 ==>
        if i == 8 || i == 13 || i == 18 || i == 23 {
            #[trigger] s[i] == '-'
        } else {
            is_lower_hex(s[i])
        }
    &&& s[14] == '4'
    &&& (s[19] == '8' || s[19] == '9' || s[19] == 'a' || s[19] == 'b')
}

/// Relies on `uuid::Uuid::new_v4` and its `Display`: random bits with the
/// version nibble set to 4 and the variant bits to `10`, written in
/// hyphenated lowercase form.
#[verifier::external_body]
fn random_uuid_text() -> (r: String)
    ensures
        is_v4_uuid_text(r@),
{
    uuid::Uuid::new_v4().to_string()
}

/// A fresh session id: a random version-4 uuid in hyphenated form.
pub fn new_session_id() -> (r: String)
    ensures
        is_v4_uuid_text(r@),
{
    random_uuid_text()
}

/// The queue name of a session: `websocket:` followed by the session id.
pub fn queue_name(id: &str) -> (r: String)
    ensures
        r@ == queue_name_of(id@),
{
    let prefix = String::from_str("websocket:");
    proof {
        reveal_strlit("websocket:");
        assert("websocket:"@ =~= queue_prefix());
    }
    prefix.concat(id)
}

/// Distinct session ids give distinct queue names.
pub proof fn lemma_queue_name_injective(a: Seq<char>, b: Seq<char>)
    requires
        a != b,
    ensures
        queue_name_of(a) != queue_name_of(b),
{
    let n = queue_prefix().len() as int;
    assert(queue_name_of(a).subrange(n, queue_name_of(a).len() as int) =~= a);
    assert(queue_name_of(b).subrange(n, queue_name_of(b).len() as int) =~= b);
}

/// Sessions with pairwise distinct ids own pairwise distinct queues: no two
/// of them ever share a queue name.
pub proof fn lemma_queue_names_distinct(ids: Seq<Seq<char>>)
    requires
        forall|i: int, j: int| 0 <= i < ids.len() && 0 <= j < ids.len() && i != j ==> ids[i] != ids[j],
    ensures
        forall|i: int, j: int|
            0 <= i < ids.len() && 0 <= j < ids.len() && i != j
                ==> #[trigger] queue_name_of(ids[i]) != #[trigger] queue_name_of(ids[j]),
{
    assert forall|i: int, j: int|
        0 <= i < ids.len() && 0 <= j < ids.len() && i != j
            implies queue_name_of(ids[i]) != queue_name_of(ids[j]) by {
        lemma_queue_name_injective(ids[i], ids[j]);
    }
}

} // verus!
