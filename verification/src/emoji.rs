//! The emoji that the program puts into its messages.

use vstd::prelude::*;
use vstd::string::StringExecFns;

verus! {

/// An emoji of a tenant: its name, and the text that shows it in a message.
#[derive(Debug)]
pub struct Emoji {
    pub name: String,
    pub text: String,
}

/// Whether the emoji at `at` is the first of `emojis` that has the name `name`.
pub open spec fn is_first_named(emojis: Seq<Emoji>, name: Seq<char>, at: int) -> bool {
    &&& 0 <= at < emojis.len()
    &&& emojis[at].name@ == name
    &&& forall|before: int| 0 <= before < at ==> emojis[before].name@ != name
}

/// The text that shows the first emoji of the name `emoji`, or the empty text
/// where the tenant has no emoji of that name.
pub fn get_emoji(emojis: &Vec<Emoji>, emoji: &str) -> (text: String)
    ensures
        forall|at: int| is_first_named(emojis@, emoji@, at) ==> text@ == emojis@[at].text@,
        (forall|at: int| 0 <= at < emojis@.len() ==> emojis@[at].name@ != emoji@) ==> text@
            == Seq::<char>::empty(),
{
    let wanted = String::from_str(emoji);
    let mut at: usize = 0;
    while at < emojis.len()
        invariant
            at <= emojis.len(),
            wanted@ == emoji@,
            forall|before: int| 0 <= before < at ==> emojis@[before].name@ != emoji@,
        decreases emojis.len() - at,
    {
        if emojis[at].name == wanted {
            return emojis[at].text.clone();
        }
        at += 1;
    }
    String::new()
}

} // verus!
