use vstd::prelude::*;
use vstd::string::*;

verus! {

/// What the lookup command needs to know of a user.
pub struct UserInfo {
    pub id: u64,
    pub name: String,
    /// The account's creation time, as the gateway renders it.
    pub created_at: String,
}

pub open spec fn age_text(name: Seq<char>, created_at: Seq<char>) -> Seq<char> {
    name + "'s account was created at "@ + created_at
}

pub open spec fn pute_text(content: Seq<char>) -> Seq<char> {
    "SALE PUTE ! "@ + content
}

/// The user a lookup reports on: the target when one is given, else the author.
pub open spec fn lookup_subject<'a>(author: &'a UserInfo, target: Option<&'a UserInfo>) -> &'a UserInfo {
    match target {
        Some(t) => t,
        None => author,
    }
}

/// Lookup handler: says when the target's account (the author's, when no
/// target is given) was created.
pub fn age(author: &UserInfo, target: Option<&UserInfo>) -> (r: String)
    ensures
        r@ == age_text(lookup_subject(author, target).name@, lookup_subject(author, target).created_at@),
{
    let u = match target {
        Some(t) => t,
        None => author,
    };
    let mut r = u.name.clone();
    r.append("'s account was created at ");
    r.append(u.created_at.as_str());
    proof {
        reveal_strlit("'s account was created at ");
    }
    r
}

/// Context-action handler: the picked message's text behind a fixed prefix.
pub fn pute(content: &str) -> (r: String)
    ensures
        r@ == pute_text(content@),
{
    let mut r = String::from_str("SALE PUTE ! ");
    r.append(content);
    proof {
        reveal_strlit("SALE PUTE ! ");
    }
    r
}

/// The legacy responder, called on every raw message, outside the command
/// registry and the dispatch gate.
pub struct Handler;

impl Handler {
    /// The reply to a raw message: "Pong!" to exactly "!ping", nothing to any
    /// other text.
    pub fn message(&self, content: &str) -> (r: Option<String>)
        ensures
            content@ == "!ping"@ ==> r is Some && r->0@ == "Pong!"@,
            content@ != "!ping"@ ==> r is None,
    {
        let text = content.to_owned();
        let trigger = String::from_str("!ping");
        if text == trigger {
            let reply = String::from_str("Pong!");
            proof {
                reveal_strlit("Pong!");
            }
            Some(reply)
        } else {
            proof {
                reveal_strlit("!ping");
            }
            None
        }
    }
}

} // verus!
