//! Templated message formatting: a template with named placeholders and
//! a mapping of names to string values yield the fully substituted
//! string, or a format error — never a partial one.

use vstd::prelude::*;
use std::collections::HashMap;

verus! {

/// What `strfmt::strfmt` returns for a template and a variable mapping:
/// the fully substituted string, or nothing when the template is
/// malformed or references an unmapped name. The substitution grammar
/// (escapes, format specifications) belongs to the formatting crate, so
/// the result is named rather than spelled out; it is a function of the
/// template and the mapping alone.
pub uninterp spec fn rendered(template: Seq<char>, vars: Map<Seq<char>, Seq<char>>) -> Option<
    Seq<char>,
>;

/// The mapping that a sequence of key/value pairs builds up, a later
/// entry overriding an earlier one with the same key, as insertion into
/// a hash map would.
pub open spec fn pairs_to_map(pairs: Seq<(String, String)>) -> Map<Seq<char>, Seq<char>>
    decreases pairs.len(),
{
    if pairs.len() == 0 {
        Map::empty()
    } else {
        pairs_to_map(pairs.drop_last()).insert(pairs.last().0@, pairs.last().1@)
    }
}

/// Relies on `strfmt::strfmt`: renders `template`, substituting each
/// named placeholder with its value from `vars`, and reports an error
/// description when the template is malformed or names an unmapped
/// variable. The outcome depends on the template and the mapping alone.
#[verifier::external_body]
fn strfmt_render(template: &str, vars: &Vec<(String, String)>) -> (r: Result<String, String>)
    ensures
        match r {
            Ok(s) => rendered(template@, pairs_to_map(vars@)) == Some(s@),
            Err(_) => rendered(template@, pairs_to_map(vars@)) is None,
        },
{
    let mut map: HashMap<String, String> = HashMap::new();
    for (k, v) in vars.iter() {
        map.insert(k.clone(), v.clone());
    }
    match strfmt::strfmt(template, &map) {
        Ok(s) => Ok(s),
        Err(e) => Err(e.to_string()),
    }
}

/// The variable mapping offered to the template for one chat message:
/// the player's stable id, the player's display name, and the raw text.
pub open spec fn message_vars(uuid: Seq<char>, name: Seq<char>, text: Seq<char>) -> Map<
    Seq<char>,
    Seq<char>,
> {
    Map::empty().insert("uuid"@, uuid).insert("name"@, name).insert("message"@, text)
}

/// Render one chat message: build the per-message variable mapping and
/// substitute it into the template. Succeeds exactly when the template
/// renders under that mapping; on failure the error description is
/// returned and no content is produced.
pub fn render_chat_message(template: &str, uuid: &str, name: &str, text: &str) -> (r: Result<
    String,
    String,
>)
    ensures
        match r {
            Ok(s) => rendered(template@, message_vars(uuid@, name@, text@)) == Some(s@),
            Err(_) => rendered(template@, message_vars(uuid@, name@, text@)) is None,
        },
{
    let mut vars: Vec<(String, String)> = Vec::new();
    let uuid_key = "uuid".to_owned();
    let uuid_val = uuid.to_owned();
    vars.push((uuid_key, uuid_val));
    let name_key = "name".to_owned();
    let name_val = name.to_owned();
    vars.push((name_key, name_val));
    let message_key = "message".to_owned();
    let message_val = text.to_owned();
    vars.push((message_key, message_val));
    proof {
        reveal_with_fuel(pairs_to_map, 4);
        let s = vars@;
        assert(s.len() == 3);
        assert(s.drop_last() =~= seq![s[0], s[1]]);
        assert(seq![s[0], s[1]].drop_last() =~= seq![s[0]]);
        assert(seq![s[0]].drop_last() =~= Seq::<(String, String)>::empty());
        assert(pairs_to_map(s) =~= message_vars(uuid@, name@, text@));
    }
    strfmt_render(template, &vars)
}

} // verus!
