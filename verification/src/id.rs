//! The ids that monitors go by.

use vstd::prelude::*;

verus! {

/// A digit of a hexadecimal number, in lower case.
pub open spec fn is_lower_hex(c: char) -> bool {
    '0' <= c <= '9' || 'a' <= c <= 'f'
}

/// The hyphenated text of a random (version 4) UUID: groups of 8, 4, 4, 4 and 12 lower-case
/// hexadecimal digits, the third group opening with the version, the fourth with the variant.
pub open spec fn is_uuid_v4(s: Seq<char>) -> bool {
    &&& s.len() == 36
    &&& forall|i: int|
        0 <= i < 36 ==> if i == 8 || i == 13 || i == 18 || i == 23 {
            #[trigger] s[i] == '-'
        } else {
            is_lower_hex(s[i])
        }
    &&& s[14] == '4'
    &&& s[19] == '8' || s[19] == '9' || s[19] == 'a' || s[19] == 'b'
}

/// Calls `uuid::Uuid::new_v4` and writes the UUID with its `Display`. Claimed of it: whichever
/// UUID is drawn, its text has the form above. Which one is drawn is left to chance, so nothing
/// is said of two calls. `new_v4` panics where the operating system yields no random bytes.
#[verifier::external_body]
fn random_uuid() -> (out: String)
    ensures
        is_uuid_v4(out@),
{
    uuid::Uuid::new_v4().to_string()
}

/// The id made of the text of a UUID.
pub open spec fn id_text(uuid: Seq<char>) -> Seq<char> {
    "mon_"@ + uuid
}

/// The form of the ids that are given to new monitors.
pub open spec fn is_monitor_id(id: Seq<char>) -> bool {
    exists|uuid: Seq<char>| is_uuid_v4(uuid) && id == #[trigger] id_text(uuid)
}

/// The id made of the text of a UUID.
pub fn monitor_id(uuid: &str) -> (id: String)
    ensures
        id@ == id_text(uuid@),
{
    let mut id = "mon_".to_owned();
    id.append(uuid);
    id
}

/// An id for a new monitor, drawn at random.
pub fn new_monitor_id() -> (id: String)
    ensures
        is_monitor_id(id@),
{
    let uuid = random_uuid();
    monitor_id(uuid.as_str())
}

/// The id of a new monitor is a single word: it holds neither a line break nor a space.
pub proof fn monitor_id_is_one_word(id: Seq<char>)
    requires
        is_monitor_id(id),
    ensures
        id.len() == 40,
        !id.contains('\n'),
        !id.contains(' '),
{
    reveal_strlit("mon_");
    let uuid = choose|uuid: Seq<char>| is_uuid_v4(uuid) && id == #[trigger] id_text(uuid);
    assert forall|i: int| 0 <= i < id.len() implies id[i] != '\n' && id[i] != ' ' by {
        if i >= 4 {
            assert(id[i] == uuid[i - 4]);
        }
    }
}

/// An id is `mon_` and then the whole text of its UUID, so that two UUIDs give two ids.
pub proof fn id_carries_its_uuid(uuid: Seq<char>, other: Seq<char>)
    ensures
        id_text(uuid).len() == uuid.len() + 4,
        id_text(uuid).take(4) == seq!['m', 'o', 'n', '_'],
        id_text(uuid).skip(4) == uuid,
        id_text(uuid) == id_text(other) ==> uuid == other,
{
    reveal_strlit("mon_");
    assert(id_text(uuid).take(4) =~= seq!['m', 'o', 'n', '_']);
    assert(id_text(uuid).skip(4) =~= uuid);
    assert(id_text(other).skip(4) =~= other);
}

/// New ids are just the texts of forty characters that are `mon_` and then the hyphenated text
/// of a random UUID.
pub proof fn new_ids_have_this_form(id: Seq<char>)
    ensures
        is_monitor_id(id) <==> {
            &&& id.len() == 40
            &&& id[0] == 'm'
            &&& id[1] == 'o'
            &&& id[2] == 'n'
            &&& id[3] == '_'
            &&& id[12] == '-'
            &&& id[17] == '-'
            &&& id[22] == '-'
            &&& id[27] == '-'
            &&& id[18] == '4'
            &&& id[23] == '8' || id[23] == '9' || id[23] == 'a' || id[23] == 'b'
            &&& forall|i: int|
                4 <= i < 40 && i != 12 && i != 17 && i != 22 && i != 27 ==> {
                    let c = #[trigger] id[i];
                    '0' <= c <= '9' || 'a' <= c <= 'f'
                }
        },
{
    reveal_strlit("mon_");
    if is_monitor_id(id) {
        let uuid = choose|uuid: Seq<char>| is_uuid_v4(uuid) && id == #[trigger] id_text(uuid);
        assert forall|i: int| 4 <= i < 40 implies #[trigger] id[i] == uuid[i - 4] by {
        }
    }
    if id.len() == 40 && id[0] == 'm' && id[1] == 'o' && id[2] == 'n' && id[3] == '_' {
        let uuid = id.skip(4);
        assert(id_text(uuid) =~= id);
        assert forall|i: int| 0 <= i < 36 implies #[trigger] uuid[i] == id[i + 4] by {
        }
    }
}

} // verus!
