use vstd::prelude::*;

verus! {

/// The decoded `key=value` pairs of the query of `uri`, in order, or `None`
/// where `uri` is not an absolute URL.
pub uninterp spec fn url_query_pairs(uri: Seq<char>) -> Option<Seq<(Seq<char>, Seq<char>)>>;

pub open spec fn pairs_view(pairs: Seq<(String, String)>) -> Seq<(Seq<char>, Seq<char>)> {
    pairs.map_values(|p: (String, String)| (p.0@, p.1@))
}

/// Relies on url::Url::parse and url::Url::query_pairs: parse `uri` as an
/// absolute URL and list the decoded pairs of its query string.
#[verifier::external_body]
fn decode_query(uri: &str) -> (r: Option<Vec<(String, String)>>)
    ensures
        r is Some <==> url_query_pairs(uri@) is Some,
        r matches Some(v) ==> url_query_pairs(uri@) == Some(pairs_view(v@)),
{
    match url::Url::parse(uri) {
        Ok(u) => Some(u.query_pairs().into_owned().collect()),
        Err(_) => None,
    }
}

/// The value of the last pair named `key`: a later pair overrides an earlier one.
pub open spec fn lookup(pairs: Seq<(Seq<char>, Seq<char>)>, key: Seq<char>) -> Option<Seq<char>>
    decreases pairs.len(),
{
    if pairs.len() == 0 {
        None
    } else if pairs.last().0 == key {
        Some(pairs.last().1)
    } else {
        lookup(pairs.drop_last(), key)
    }
}

/// A parameter that is present with a non-empty value.
pub open spec fn given(pairs: Seq<(Seq<char>, Seq<char>)>, key: Seq<char>) -> bool {
    lookup(pairs, key) matches Some(v) && v.len() > 0
}

/// The user and repository named by `pairs`, where both are given.
pub open spec fn requested(pairs: Seq<(Seq<char>, Seq<char>)>) -> Option<(Seq<char>, Seq<char>)> {
    if given(pairs, "user"@) && given(pairs, "repo"@) {
        Some((lookup(pairs, "user"@).unwrap(), lookup(pairs, "repo"@).unwrap()))
    } else {
        None
    }
}

/// The address that the repository `repo` of `user` is fetched from.
pub open spec fn remote_url_of(user: Seq<char>, repo: Seq<char>) -> Seq<char> {
    "https://github.com/"@ + user + "/"@ + repo
}

/// The value of the last pair of `pairs` named `key`.
pub fn find_param(pairs: &Vec<(String, String)>, key: &str) -> (r: Option<String>)
    ensures
        r is Some <==> lookup(pairs_view(pairs@), key@) is Some,
        r matches Some(v) ==> lookup(pairs_view(pairs@), key@) == Some(v@),
{
    let ghost all = pairs_view(pairs@);
    let wanted = String::from_str(key);
    let mut i: usize = pairs.len();
    assert(all.take(i as int) =~= all);
    while i > 0
        invariant
            i <= pairs@.len(),
            all == pairs_view(pairs@),
            wanted@ == key@,
            lookup(all, key@) == lookup(all.take(i as int), key@),
        decreases i,
    {
        let (k, v) = &pairs[i - 1];
        proof {
            assert(all.take(i as int).drop_last() =~= all.take(i - 1));
            assert(all.take(i as int).last() == (k@, v@));
        }
        if *k == wanted {
            assert(lookup(all.take(i as int), key@) == Some(v@));
            let found = v.clone();
            assert(lookup(pairs_view(pairs@), key@) == Some(found@));
            return Some(found);
        }
        i = i - 1;
    }
    None
}

/// The user and repository that `pairs` asks for: both must be present and
/// non-empty.
pub fn request_params(pairs: &Vec<(String, String)>) -> (r: Option<(String, String)>)
    ensures
        r is Some <==> requested(pairs_view(pairs@)) is Some,
        r matches Some(p) ==> requested(pairs_view(pairs@)) == Some((p.0@, p.1@)),
{
    let user = find_param(pairs, "user");
    let repo = find_param(pairs, "repo");
    match (user, repo) {
        (Some(user), Some(repo)) => {
            if user.as_str().unicode_len() > 0 && repo.as_str().unicode_len() > 0 {
                Some((user, repo))
            } else {
                None
            }
        },
        _ => None,
    }
}

/// The user and repository that the query of `uri` asks for.
pub fn request_params_of_uri(uri: &str) -> (r: Option<(String, String)>)
    ensures
        r is Some <==> (url_query_pairs(uri@) matches Some(p) && requested(p) is Some),
        r matches Some(p) ==> requested(url_query_pairs(uri@).unwrap()) == Some((p.0@, p.1@)),
{
    match decode_query(uri) {
        Some(pairs) => request_params(&pairs),
        None => None,
    }
}

/// The address that the repository `repo` of `user` is fetched from.
pub fn remote_url(user: &str, repo: &str) -> (r: String)
    ensures
        r@ == remote_url_of(user@, repo@),
{
    let mut url = String::from_str("https://github.com/");
    url.append(user);
    url.append("/");
    url.append(repo);
    url
}

} // verus!
