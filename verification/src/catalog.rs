//! The catalog client's decisions: which tags go into a request, the exact
//! query the request carries, the authorization header built from an
//! optional credential, and what counts as an empty answer. The request
//! itself is the caller's network call.

use vstd::prelude::*;
use base64::Engine;
use crate::errors::AppError;
use crate::model::{E621Posts, Post};

verus! {

/// The tag list a request is built from: a score floor plus either the
/// default subject or the paw tags, and an exclusion of cubs unless they
/// were asked for.
pub open spec fn chosen_tags(paws: bool, cubs: bool) -> Seq<Seq<char>> {
    let base = if paws {
        seq!["score:>100"@, "paws"@, "pawpads"@]
    } else {
        seq!["score:>100"@, "fox"@]
    };
    if cubs {
        base
    } else {
        base.push("-cub"@)
    }
}

/// The user-chosen tags of one request.
pub fn build_tag_list(paws: bool, cubs: bool) -> (r: Vec<String>)
    ensures
        r@.map_values(|t: String| t@) == chosen_tags(paws, cubs),
{
    let mut tags: Vec<String> = Vec::new();
    tags.push(String::from_str("score:>100"));
    if paws {
        tags.push(String::from_str("paws"));
        tags.push(String::from_str("pawpads"));
    } else {
        tags.push(String::from_str("fox"));
    }
    if !cubs {
        tags.push(String::from_str("-cub"));
    }
    proof {
        assert(tags@.map_values(|t: String| t@) =~= chosen_tags(paws, cubs));
    }
    tags
}

/// The tags joined with the query separator, in order.
pub open spec fn plus_joined(tags: Seq<String>) -> Seq<char>
    decreases tags.len(),
{
    if tags.len() == 0 {
        Seq::empty()
    } else if tags.len() == 1 {
        tags[0]@
    } else {
        plus_joined(tags.drop_last()) + "+"@ + tags.last()@
    }
}

/// Join the tag list with the query separator.
pub fn joined_tags(tags: &Vec<String>) -> (r: String)
    ensures
        r@ == plus_joined(tags@),
{
    let mut out = String::new();
    let mut i: usize = 0;
    while i < tags.len()
        invariant
            i <= tags@.len(),
            out@ == plus_joined(tags@.take(i as int)),
        decreases tags@.len() - i,
    {
        if i > 0 {
            out.append("+");
        }
        out.append(tags[i].as_str());
        proof {
            assert(tags@.take(i + 1).drop_last() =~= tags@.take(i as int));
            assert(tags@.take(i + 1).last() == tags@[i as int]);
            if i == 0 {
                assert(plus_joined(tags@.take(1)) == tags@[0]@);
            }
        }
        i = i + 1;
    }
    proof {
        assert(tags@.take(tags@.len() as int) =~= tags@);
    }
    out
}

/// The full request address: the fixed endpoint asking for exactly one
/// result, the randomization directive, the two fixed content exclusions,
/// then the user tags.
pub fn request_url(tags: &Vec<String>) -> (r: String)
    ensures
        r@ == "https://e621.net/posts.json?limit=1&tags=order:random+-female+-intersex+"@
            + plus_joined(tags@),
{
    let mut out = String::from_str(
        "https://e621.net/posts.json?limit=1&tags=order:random+-female+-intersex+",
    );
    let joined = joined_tags(tags);
    out.append(joined.as_str());
    out
}

/// What the standard base64 engine makes of a string's UTF-8 bytes: a
/// deterministic function of the characters alone.
pub uninterp spec fn base64_std_of(s: Seq<char>) -> Seq<char>;

/// Relies on base64's `Engine::encode` with the STANDARD engine: the
/// encoding of the input's UTF-8 bytes, a deterministic function of the
/// input alone; empty input encodes to the empty string. Its only panic is
/// on an output length above `usize::MAX`, which no real slice (at most
/// `isize::MAX` bytes) can reach.
#[verifier::external_body]
fn base64_encode(s: &str) -> (r: String)
    ensures
        r@ == base64_std_of(s@),
        s@.len() == 0 ==> r@.len() == 0,
        s@.len() > 0 ==> r@.len() > 0,
{
    base64::engine::general_purpose::STANDARD.encode(s)
}

/// The authorization header sent with a credential: the fixed account
/// name and the token, base64-encoded in basic-auth shape.
pub fn auth_header_value(token: &str) -> (r: String)
    ensures
        r@ == "Basic "@ + base64_std_of("kalka:"@ + token@),
{
    let mut credential = String::from_str("kalka:");
    credential.append(token);
    let encoded = base64_encode(credential.as_str());
    let mut out = String::from_str("Basic ");
    out.append(encoded.as_str());
    out
}

/// The one post a response is good for. A response with zero posts is the
/// empty-result error; otherwise the first post is taken, exactly as the
/// catalog returned it.
pub fn select_first_post(response: E621Posts) -> (r: Result<Post, AppError>)
    ensures
        response.posts@.len() == 0 <==> r is Err,
        r matches Err(e) ==> e == AppError::EmptyResult,
        r matches Ok(p) ==> p == response.posts@[0],
{
    let mut posts = response.posts;
    if posts.len() == 0 {
        Err(AppError::EmptyResult)
    } else {
        Ok(posts.remove(0))
    }
}

} // verus!
