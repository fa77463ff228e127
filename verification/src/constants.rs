//! Names shared with the key-value store: keys and pub/sub topics.

use vstd::prelude::*;

verus! {

/// Key of the stored sign-up list.
pub const SIGNUP_LIST: &'static str = "signup_list";

/// Key of the counter that hands out sign-up ids.
pub const SIGNUP_COUNTER: &'static str = "signup_counter";

/// Topic on which new sign-ups are announced.
pub const SIGNUP_TOPIC: &'static str = "new_signups";

/// Topic on which removals from the list are announced.
pub const REMOVAL_TOPIC: &'static str = "signup_removals";

/// The characters of `SIGNUP_TOPIC`.
pub open spec fn signup_topic() -> Seq<char> {
    seq!['n', 'e', 'w', '_', 's', 'i', 'g', 'n', 'u', 'p', 's']
}

/// `SIGNUP_TOPIC` holds the characters of `signup_topic()`.
pub proof fn lemma_signup_topic()
    ensures
        SIGNUP_TOPIC@ == signup_topic(),
{
    reveal_strlit("new_signups");
    assert(SIGNUP_TOPIC@ =~= signup_topic());
}

} // verus!
