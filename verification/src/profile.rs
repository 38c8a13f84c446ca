use vstd::prelude::*;
use vstd::string::*;

verus! {

/// The address of the avatar that is shown for a user of the roster.
pub open spec fn roster_avatar_url(name: Seq<char>) -> Seq<char> {
    "https://avatars.dicebear.com/api/adventurer-neutral/"@ + name + ".svg"@
}

/// The address of the avatar that is shown for a sender who is not in the
/// roster.
pub open spec fn fallback_avatar_url(from: Seq<char>) -> Seq<char> {
    "https://avatars.dicebear.com/api/initials/"@ + from + ".svg"@
}

/// Builds the address of the roster avatar of `name`.
pub fn roster_avatar(name: &str) -> (url: String)
    ensures
        url@ == roster_avatar_url(name@),
{
    let mut url = String::from_str("https://avatars.dicebear.com/api/adventurer-neutral/");
    url.append(name);
    url.append(".svg");
    url
}

/// Builds the address of the fallback avatar of `from`.
pub fn fallback_avatar(from: &str) -> (url: String)
    ensures
        url@ == fallback_avatar_url(from@),
{
    let mut url = String::from_str("https://avatars.dicebear.com/api/initials/");
    url.append(from);
    url.append(".svg");
    url
}

/// One user of the roster, with the address of the avatar shown beside the
/// name.
#[derive(Clone, Debug, PartialEq, Eq)]
pub struct UserProfile {
    pub name: String,
    pub avatar: String,
}

/// The mathematical value of a [`UserProfile`].
pub struct UserProfileView {
    pub name: Seq<char>,
    pub avatar: Seq<char>,
}

impl View for UserProfile {
    type V = UserProfileView;

    open spec fn view(&self) -> UserProfileView {
        UserProfileView { name: self.name@, avatar: self.avatar@ }
    }
}

/// The profile that a bare name stands for.
pub open spec fn profile_of(name: Seq<char>) -> UserProfileView {
    UserProfileView { name, avatar: roster_avatar_url(name) }
}

/// The roster that a list of names stands for: one profile for each name,
/// in the order of the names.
pub open spec fn profiles(names: Seq<Seq<char>>) -> Seq<UserProfileView> {
    Seq::new(names.len(), |i: int| profile_of(names[i]))
}

/// The views of the profiles of a roster, in order.
pub open spec fn roster_view(roster: Seq<UserProfile>) -> Seq<UserProfileView> {
    Seq::new(roster.len(), |i: int| roster[i]@)
}

impl UserProfile {
    /// The profile of the user called `name`.
    pub fn new(name: &str) -> (profile: UserProfile)
        ensures
            profile@ == profile_of(name@),
    {
        UserProfile { name: String::from_str(name), avatar: roster_avatar(name) }
    }
}

/// Builds the roster of a list of names.
pub fn roster_of(names: &Vec<String>) -> (roster: Vec<UserProfile>)
    ensures
        roster_view(roster@) == profiles(names.deep_view()),
{
    let mut roster: Vec<UserProfile> = Vec::new();
    let mut i: usize = 0;
    while i < names.len()
        invariant
            i <= names.len(),
            roster.len() == i,
            forall|j: int| 0 <= j < i ==> roster@[j]@ == profile_of(names@[j]@),
        decreases names.len() - i,
    {
        roster.push(UserProfile::new(names[i].as_str()));
        i += 1;
    }
    assert(roster_view(roster@) =~= profiles(names.deep_view()));
    roster
}

} // verus!
