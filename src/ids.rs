use vstd::prelude::*;

verus! {

/// The text form of a row id (a UUID held as its 128-bit value).
pub uninterp spec fn uuid_text(id: u128) -> Seq<char>;

/// Relies on `uuid::Uuid::from_u128` and its `Display` impl: the text of an id
/// depends on the id alone.
#[verifier::external_body]
fn id_text(id: u128) -> (r: String)
    ensures
        r@ == uuid_text(id),
{
    uuid::Uuid::from_u128(id).to_string()
}

/// The message of a "not found" envelope for a game id.
pub open spec fn not_found_text(game_id: u128) -> Seq<char> {
    "Game with ID: "@ + uuid_text(game_id) + " not found"@
}

/// Builds "Game with ID: <id> not found".
pub fn not_found_message(game_id: u128) -> (r: String)
    ensures
        r@ == not_found_text(game_id),
{
    let text = id_text(game_id);
    let mut r = String::from_str("Game with ID: ");
    r.append(text.as_str());
    r.append(" not found");
    r
}

} // verus!
