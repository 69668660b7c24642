//! Links to a client's chat, and keyboards whose buttons carry plain text.

use vstd::prelude::*;
use vstd::string::*;

verus! {

/// The normal form that the `url` crate gives an absolute URL, `None` for
/// a text that is no absolute URL.
pub uninterp spec fn parsed_url(text: Seq<char>) -> Option<Seq<char>>;

/// The text that an optional string holds.
pub open spec fn text_of(text: Option<String>) -> Option<Seq<char>> {
    match text {
        Some(text) => Some(text@),
        None => None,
    }
}

/// Calls `url::Url::parse` and hands back the URL as text. Trusted: the
/// result depends on the text alone; nothing more is claimed of it.
#[verifier::external_body]
fn parse_url(text: &str) -> (url: Option<String>)
    ensures
        text_of(url) == parsed_url(text@),
{
    match url::Url::parse(text) {
        Ok(url) => Some(String::from(url)),
        Err(_) => None,
    }
}

/// The address of the chat with the user of the given handle.
pub open spec fn chat_address(username: Seq<char>) -> Seq<char> {
    "https://t.me/"@ + username
}

/// The link that a result of parsing the chat address gives: the parsed
/// address, none for an empty handle or an address that did not parse.
pub open spec fn link_of(username: Seq<char>, parsed: Option<Seq<char>>) -> Option<Seq<char>> {
    if username.len() == 0 {
        None
    } else {
        parsed
    }
}

/// Chooses the link to a client's chat from the handle and from what
/// parsing the chat address gave.
pub fn choose_link(username: &str, parsed: Option<String>) -> (link: Option<String>)
    ensures
        text_of(link) == link_of(username@, text_of(parsed)),
{
    if username.unicode_len() == 0 {
        None
    } else {
        parsed
    }
}

/// The link to the chat with a client: the chat address of the handle as
/// the `url` crate writes it. `None` for a client without a handle and for
/// a handle that makes no address.
pub fn contact_link(username: &str) -> (link: Option<String>)
    ensures
        text_of(link) == link_of(username@, parsed_url(chat_address(username@))),
{
    let address = String::from_str("https://t.me/").concat(username);
    let parsed = parse_url(address.as_str());
    choose_link(username, parsed)
}

/// A button that shows a text and sends a text.
#[derive(Debug)]
pub struct InlineButton {
    pub text: String,
    pub data: String,
}

/// The text that button `i` of a keyboard made with `mark` sends: the mark,
/// a colon and the action of that position, `ignore` where the list of
/// actions is too short.
pub open spec fn marked(mark: Seq<char>, action: Seq<String>, i: int) -> Seq<char> {
    mark + ":"@ + if 0 <= i < action.len() {
        action[i]@
    } else {
        "ignore"@
    }
}

/// A keyboard of one button to a row: for each text of `button` a button
/// that sends `mark`, a colon and the action of the same position; and a
/// last row that leads back.
pub fn generate_inline_markup(mark: &str, button: Vec<String>, action: Vec<String>) -> (keyboard: Vec<
    Vec<InlineButton>,
>)
    ensures
        keyboard@.len() == button@.len() + 1,
        forall|i: int|
            0 <= i < button@.len() ==> (#[trigger] keyboard@[i])@.len() == 1 && keyboard@[i]@[0].text@
                == button@[i]@ && keyboard@[i]@[0].data@ == marked(mark@, action@, i),
        keyboard@[button@.len() as int]@.len() == 1,
        keyboard@[button@.len() as int]@[0].text@ == "⟵ Назад"@,
        keyboard@[button@.len() as int]@[0].data@ == "back"@,
{
    let mut keyboard: Vec<Vec<InlineButton>> = Vec::new();
    let mut i: usize = 0;
    while i < button.len()
        invariant
            i <= button.len(),
            keyboard@.len() == i,
            forall|k: int|
                0 <= k < i ==> (#[trigger] keyboard@[k])@.len() == 1 && keyboard@[k]@[0].text@
                    == button@[k]@ && keyboard@[k]@[0].data@ == marked(mark@, action@, k),
        decreases button.len() - i,
    {
        let mut data = String::from_str(mark);
        data.append(":");
        if i < action.len() {
            data.append(action[i].as_str());
        } else {
            data.append("ignore");
        }
        let mut row: Vec<InlineButton> = Vec::new();
        row.push(InlineButton { text: button[i].clone(), data });
        keyboard.push(row);
        i += 1;
    }
    let mut row: Vec<InlineButton> = Vec::new();
    row.push(InlineButton { text: String::from_str("⟵ Назад"), data: String::from_str("back") });
    keyboard.push(row);
    keyboard
}

} // verus!
