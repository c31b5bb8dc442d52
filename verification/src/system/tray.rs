//! The tone of writing that suits the focused application.

use crate::text::same_text;
use vstd::prelude::*;

verus! {

/// The tone for the application with the bundle identifier `bundle_id`:
/// casual for chat, professional for mail, neutral for everything else.
pub open spec fn tone_of(bundle_id: Seq<char>) -> Seq<char> {
    if bundle_id == "com.tinyspeck.slackmacgap"@ || bundle_id == "com.apple.MobileSMS"@ {
        "casual"@
    } else if bundle_id == "com.apple.mail"@ || bundle_id == "com.microsoft.Outlook"@ {
        "professional"@
    } else {
        "neutral"@
    }
}

/// The tone of writing for the application with the given bundle
/// identifier.
pub fn get_app_tone(bundle_id: &str) -> (tone: &'static str)
    ensures
        tone@ == tone_of(bundle_id@),
{
    if same_text(bundle_id, "com.tinyspeck.slackmacgap") || same_text(
        bundle_id,
        "com.apple.MobileSMS",
    ) {
        "casual"
    } else if same_text(bundle_id, "com.apple.mail") || same_text(
        bundle_id,
        "com.microsoft.Outlook",
    ) {
        "professional"
    } else {
        "neutral"
    }
}

} // verus!
