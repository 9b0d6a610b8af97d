//! Session ids of the per-app runtimes.

use vstd::prelude::*;

verus! {

/// The prefix of every generated session id.
pub const SESSION_ID_PREFIX: &'static str = "sess-";

/// A lowercase hexadecimal digit.
pub open spec fn is_lower_hex_digit(c: char) -> bool {
    ('0' <= c && c <= '9') || ('a' <= c && c <= 'f')
}

/// A session id as the runtime generates it: `sess-` followed by eight lowercase hex
/// digits.
pub open spec fn is_generated_session_id(s: Seq<char>) -> bool {
    &&& s.len() == 13
    &&& s.subrange(0, 5) == SESSION_ID_PREFIX@
    &&& forall|i: int| 5 <= i < 13 ==> is_lower_hex_digit(#[trigger] s[i])
}

/// The text of a version-4 UUID in simple form: 32 lowercase hex digits whose version
/// digit is `4` and whose variant digit is one of `8`, `9`, `a`, `b`.
pub open spec fn is_uuid_v4_simple_text(s: Seq<char>) -> bool {
    &&& s.len() == 32
    &&& forall|i: int| 0 <= i < 32 ==> is_lower_hex_digit(#[trigger] s[i])
    &&& s[12] == '4'
    &&& (s[16] == '8' || s[16] == '9' || s[16] == 'a' || s[16] == 'b')
}

/// `uuid::Uuid::new_v4().simple().to_string()`: a random version-4 UUID written as 32
/// lowercase hexadecimal digits, whose version digit (the 13th) is `4` and whose variant
/// digit (the 17th) is one of `8`, `9`, `a`, `b`. Which digits the others are is left
/// open: they come from the system's random number generator.
#[verifier::external_body]
pub(crate) fn new_v4_simple_hex() -> (s: String)
    ensures
        is_uuid_v4_simple_text(s@),
{
    uuid::Uuid::new_v4().simple().to_string()
}

/// The session id made from a drawn UUID text: `sess-` followed by its first eight
/// characters.
pub open spec fn session_id_of_draw(draw: Seq<char>) -> Seq<char> {
    SESSION_ID_PREFIX@ + draw.subrange(0, 8)
}

/// A session id made from a UUID draw has the generated form, and two draws give the same
/// session id exactly when their first eight characters agree.
pub proof fn law_session_id_of_draw(d1: Seq<char>, d2: Seq<char>)
    requires
        is_uuid_v4_simple_text(d1),
        d2.len() >= 8,
    ensures
        is_generated_session_id(session_id_of_draw(d1)),
        (session_id_of_draw(d1) == session_id_of_draw(d2)) <==> (d1.subrange(0, 8) == d2.subrange(
            0,
            8,
        )),
{
    reveal_strlit("sess-");
    let s1 = session_id_of_draw(d1);
    let s2 = session_id_of_draw(d2);
    assert(s1.subrange(0, 5) =~= SESSION_ID_PREFIX@);
    assert forall|i: int| 5 <= i < 13 implies is_lower_hex_digit(#[trigger] s1[i]) by {
        assert(s1[i] == d1[i - 5]);
    }
    assert(s1.subrange(5, 13) =~= d1.subrange(0, 8));
    assert(s2.subrange(5, 13) =~= d2.subrange(0, 8));
    if d1.subrange(0, 8) == d2.subrange(0, 8) {
        assert(s1 =~= s2);
    }
}

/// The session id made from the text of a UUID: `sess-` followed by its first eight
/// characters.
pub fn session_id_from_uuid_hex(uuid_hex: &str) -> (r: String)
    requires
        uuid_hex@.len() >= 8,
        forall|i: int| 0 <= i < 8 ==> (#[trigger] uuid_hex@[i]) as u32 <= 0x7f,
    ensures
        r@ == session_id_of_draw(uuid_hex@),
{
    let mut r = String::from_str(SESSION_ID_PREFIX);
    r.append(uuid_hex.substring_char(0, 8));
    r
}

/// The session id to run with: the given one, or else a freshly generated one.
pub fn normalize_appfs_session_id(session_id: Option<String>) -> (r: String)
    ensures
        match session_id {
            Some(s) => r == s,
            None => is_generated_session_id(r@),
        },
        session_id is None ==> exists|draw: Seq<char>|
            #![trigger is_uuid_v4_simple_text(draw)]
            is_uuid_v4_simple_text(draw) && r@ == session_id_of_draw(draw),
{
    match session_id {
        Some(s) => s,
        None => {
            let hex = new_v4_simple_hex();
            let r = session_id_from_uuid_hex(hex.as_str());
            proof {
                reveal_strlit("sess-");
                assert(r@.subrange(0, 5) =~= SESSION_ID_PREFIX@);
                assert forall|i: int| 5 <= i < 13 implies is_lower_hex_digit(#[trigger] r@[i]) by {
                    assert(r@[i] == hex@[i - 5]);
                }
                assert(is_uuid_v4_simple_text(hex@));
            }
            r
        },
    }
}

} // verus!
