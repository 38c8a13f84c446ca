use crate::profile::{
    fallback_avatar, fallback_avatar_url, roster_avatar_url, roster_view, UserProfile,
    UserProfileView,
};
use crate::protocol::{ChatMessage, ChatMessageView};
use crate::text::{ends_with, is_suffix, same_text};
use vstd::prelude::*;

verus! {

/// Whether `i` is the place of the first profile of `roster` called `from`.
pub open spec fn is_first_match(roster: Seq<UserProfileView>, from: Seq<char>, i: int) -> bool {
    &&& 0 <= i < roster.len()
    &&& roster[i].name == from
    &&& forall|j: int| 0 <= j < i ==> roster[j].name != from
}

/// Whether no profile of `roster` is called `from`.
pub open spec fn is_absent(roster: Seq<UserProfileView>, from: Seq<char>) -> bool {
    forall|i: int| 0 <= i < roster.len() ==> roster[i].name != from
}

/// The avatar shown beside a message from `from`: that of the first profile
/// of the roster with this name, and the fallback avatar where the roster
/// has none.
pub open spec fn resolve_avatar(roster: Seq<UserProfileView>, from: Seq<char>) -> Seq<char>
    decreases roster.len(),
{
    if roster.len() == 0 {
        fallback_avatar_url(from)
    } else if roster[0].name == from {
        roster[0].avatar
    } else {
        resolve_avatar(roster.drop_first(), from)
    }
}

/// A sender who is not in the roster gets the fallback avatar.
pub proof fn lemma_absent_sender_gets_fallback(roster: Seq<UserProfileView>, from: Seq<char>)
    requires
        is_absent(roster, from),
    ensures
        resolve_avatar(roster, from) == fallback_avatar_url(from),
    decreases roster.len(),
{
    if roster.len() > 0 {
        let rest = roster.drop_first();
        assert forall|i: int| 0 <= i < rest.len() implies rest[i].name != from by {
            assert(rest[i] == roster[i + 1]);
        }
        lemma_absent_sender_gets_fallback(rest, from);
    }
}

/// A sender who is in the roster gets the avatar of the first profile with
/// that name.
pub proof fn lemma_present_sender_gets_roster_avatar(
    roster: Seq<UserProfileView>,
    from: Seq<char>,
    i: int,
)
    requires
        is_first_match(roster, from, i),
    ensures
        resolve_avatar(roster, from) == roster[i].avatar,
    decreases roster.len(),
{
    if i > 0 {
        let rest = roster.drop_first();
        assert(roster[0].name != from);
        assert(rest[i - 1] == roster[i]);
        assert forall|j: int| 0 <= j < i - 1 implies rest[j].name != from by {
            assert(rest[j] == roster[j + 1]);
        }
        lemma_present_sender_gets_roster_avatar(rest, from, i - 1);
    }
}

/// Whether every profile of a roster has the avatar that belongs to its
/// name.
pub open spec fn avatars_follow_names(roster: Seq<UserProfileView>) -> bool {
    forall|i: int|
        0 <= i < roster.len() ==> #[trigger] roster[i].avatar == roster_avatar_url(roster[i].name)
}

/// In a roster whose avatars follow the names, the avatar of a sender goes
/// by the name alone: the roster avatar of the name where the roster holds
/// it, the fallback avatar where it does not.
pub proof fn lemma_avatar_goes_by_name(roster: Seq<UserProfileView>, from: Seq<char>)
    requires
        avatars_follow_names(roster),
    ensures
        resolve_avatar(roster, from) == if is_absent(roster, from) {
            fallback_avatar_url(from)
        } else {
            roster_avatar_url(from)
        },
    decreases roster.len(),
{
    if roster.len() > 0 {
        let rest = roster.drop_first();
        assert forall|i: int| 0 <= i < rest.len() implies #[trigger] rest[i].avatar
            == roster_avatar_url(rest[i].name) by {
            assert(rest[i] == roster[i + 1]);
        }
        lemma_avatar_goes_by_name(rest, from);
        if roster[0].name == from {
            assert(roster[0].avatar == roster_avatar_url(roster[0].name));
        } else if is_absent(rest, from) {
            assert forall|i: int| 0 <= i < roster.len() implies roster[i].name != from by {
                if i > 0 {
                    assert(rest[i - 1] == roster[i]);
                }
            }
        } else {
            let k = choose|k: int| 0 <= k < rest.len() && rest[k].name == from;
            assert(roster[k + 1] == rest[k]);
        }
    }
}

/// Picks the avatar shown beside a message from `from`.
#[verifier::loop_isolation(false)]
pub fn avatar_for(roster: &Vec<UserProfile>, from: &str) -> (url: String)
    ensures
        url@ == resolve_avatar(roster_view(roster@), from@),
        is_absent(roster_view(roster@), from@) ==> url@ == fallback_avatar_url(from@),
        forall|i: int|
            is_first_match(roster_view(roster@), from@, i) ==> url@ == #[trigger] roster@[i].avatar@,
{
    let ghost all = roster_view(roster@);
    proof {
        assert(all.skip(0) =~= all);
        if is_absent(all, from@) {
            lemma_absent_sender_gets_fallback(all, from@);
        }
        assert forall|i: int| is_first_match(all, from@, i) implies resolve_avatar(all, from@)
            == #[trigger] roster@[i].avatar@ by {
            lemma_present_sender_gets_roster_avatar(all, from@, i);
        }
    }
    let mut i: usize = 0;
    while i < roster.len()
        invariant
            i <= roster.len(),
            all == roster_view(roster@),
            resolve_avatar(all, from@) == resolve_avatar(all.skip(i as int), from@),
        decreases roster.len() - i,
    {
        assert(all.skip(i as int).drop_first() =~= all.skip(i + 1));
        assert(all.skip(i as int)[0] == all[i as int]);
        if same_text(roster[i].name.as_str(), from) {
            return roster[i].avatar.clone();
        }
        i += 1;
    }
    fallback_avatar(from)
}

/// What is shown for the body of a message.
#[derive(Clone, Debug, PartialEq, Eq)]
pub enum Content {
    /// The body is the address of an image, and the image is shown.
    Image(String),
    /// The body is shown as it is.
    Text(String),
}

/// The mathematical value of a [`Content`].
pub enum ContentView {
    Image(Seq<char>),
    Text(Seq<char>),
}

impl View for Content {
    type V = ContentView;

    open spec fn view(&self) -> ContentView {
        match self {
            Content::Image(address) => ContentView::Image(address@),
            Content::Text(text) => ContentView::Text(text@),
        }
    }
}

/// Whether a body is shown as an image: it is where its last four
/// characters are `.gif`, in lower case. Nothing else about the body is
/// looked at, so this is a guess by the name and no test of what the address
/// holds.
pub open spec fn is_image_reference(body: Seq<char>) -> bool {
    is_suffix(body, ".gif"@)
}

/// What is shown for a body.
pub open spec fn content_of(body: Seq<char>) -> ContentView {
    if is_image_reference(body) {
        ContentView::Image(body)
    } else {
        ContentView::Text(body)
    }
}

/// Tells whether a body is shown as an image.
pub fn is_image(body: &str) -> (image: bool)
    ensures
        image == is_image_reference(body@),
{
    ends_with(body, ".gif")
}

/// Decides what is shown for a body.
pub fn content(body: &str) -> (shown: Content)
    ensures
        shown@ == content_of(body@),
{
    if is_image(body) {
        Content::Image(body.to_owned())
    } else {
        Content::Text(body.to_owned())
    }
}

/// One entry of the transcript as the page shows it.
#[derive(Clone, Debug, PartialEq, Eq)]
pub struct RenderedMessage {
    pub avatar: String,
    pub name: String,
    pub content: Content,
}

/// The mathematical value of a [`RenderedMessage`].
pub struct RenderedMessageView {
    pub avatar: Seq<char>,
    pub name: Seq<char>,
    pub content: ContentView,
}

impl View for RenderedMessage {
    type V = RenderedMessageView;

    open spec fn view(&self) -> RenderedMessageView {
        RenderedMessageView { avatar: self.avatar@, name: self.name@, content: self.content@ }
    }
}

/// How a message is shown against a roster.
pub open spec fn render_message(
    roster: Seq<UserProfileView>,
    message: ChatMessageView,
) -> RenderedMessageView {
    RenderedMessageView {
        avatar: resolve_avatar(roster, message.from),
        name: message.from,
        content: content_of(message.body),
    }
}

/// Decides how `message` is shown against `roster`.
pub fn render_entry(roster: &Vec<UserProfile>, message: &ChatMessage) -> (entry: RenderedMessage)
    ensures
        entry@ == render_message(roster_view(roster@), message@),
{
    RenderedMessage {
        avatar: avatar_for(roster, message.from.as_str()),
        name: message.from.clone(),
        content: content(message.body.as_str()),
    }
}

} // verus!
