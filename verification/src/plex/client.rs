//! Addresses of the requests sent to the Plex server.

use vstd::prelude::*;

verus! {

/// `&name=value` for each query parameter, in order.
pub open spec fn query_suffix(query: Seq<(String, String)>) -> Seq<char>
    decreases query.len(),
{
    if query.len() == 0 {
        Seq::empty()
    } else {
        query_suffix(query.drop_last()) + "&"@ + query.last().0@ + "="@ + query.last().1@
    }
}

/// The request URL: origin, path, the token parameter, then the other
/// query parameters.
pub open spec fn request_url_of(
    origin: Seq<char>,
    token: Seq<char>,
    path: Seq<char>,
    query: Seq<(String, String)>,
) -> Seq<char> {
    origin + path + "?X-Plex-Token="@ + token + query_suffix(query)
}

/// Path of the list of active playback sessions.
pub open spec fn sessions_path() -> Seq<char> {
    "/status/sessions"@
}

/// The Plex server to ask: its origin (`host:port`) and access token.
pub struct PlexClient {
    pub plex_token: String,
    pub plex_origin: String,
}

impl PlexClient {
    pub fn new(plex_token: &String, plex_origin: &String) -> (c: Self)
        ensures
            c.plex_token@ == plex_token@,
            c.plex_origin@ == plex_origin@,
    {
        PlexClient { plex_token: plex_token.clone(), plex_origin: plex_origin.clone() }
    }

    /// URL of a GET request for `path` with the extra `query` parameters.
    pub fn request_url(&self, path: &str, query: Option<&Vec<(String, String)>>) -> (r: String)
        ensures
            r@ == request_url_of(
                self.plex_origin@,
                self.plex_token@,
                path@,
                match query {
                    Some(q) => q@,
                    None => Seq::empty(),
                },
            ),
    {
        let mut parameters = String::from_str("?X-Plex-Token=");
        parameters.append(self.plex_token.as_str());
        let ghost start = parameters@;
        match query {
            Some(q) => {
                let n = q.len();
                let mut i: usize = 0;
                while i < n
                    invariant
                        n == q@.len(),
                        i <= n,
                        parameters@ == start + query_suffix(q@.take(i as int)),
                    decreases n - i,
                {
                    proof {
                        assert(q@.take(i as int + 1).drop_last() =~= q@.take(i as int));
                    }
                    let (name, value) = &q[i];
                    parameters.append("&");
                    parameters.append(name.as_str());
                    parameters.append("=");
                    parameters.append(value.as_str());
                    i = i + 1;
                }
                assert(q@.take(n as int) =~= q@);
            },
            None => {
                assert(query_suffix(Seq::<(String, String)>::empty()) =~= Seq::<char>::empty());
            },
        }
        let mut url = self.plex_origin.clone();
        url.append(path);
        url.append(parameters.as_str());
        url
    }

    /// URL of the list of active playback sessions.
    pub fn session_url(&self) -> (r: String)
        ensures
            r@ == request_url_of(self.plex_origin@, self.plex_token@, sessions_path(), Seq::empty()),
    {
        self.request_url("/status/sessions", None)
    }
}

/// Law: query parameters are written in the order given; the parameters
/// of two lists one after the other are those of the first, then those of
/// the second.
pub proof fn lemma_query_suffix_concat(first: Seq<(String, String)>, second: Seq<(String, String)>)
    ensures
        query_suffix(first + second) == query_suffix(first) + query_suffix(second),
    decreases second.len(),
{
    if second.len() == 0 {
        assert(first + second =~= first);
        assert(query_suffix(first) + query_suffix(second) =~= query_suffix(first));
    } else {
        assert((first + second).drop_last() =~= first + second.drop_last());
        assert((first + second).last() == second.last());
        lemma_query_suffix_concat(first, second.drop_last());
        let a = query_suffix(first);
        let b = query_suffix(second.drop_last());
        assert(a + b + "&"@ + second.last().0@ + "="@ + second.last().1@ =~= a + (b + "&"@
            + second.last().0@ + "="@ + second.last().1@));
    }
}

/// Law: extra query parameters only add to the end of the URL of the same
/// request without them.
pub proof fn lemma_query_extends_url(
    origin: Seq<char>,
    token: Seq<char>,
    path: Seq<char>,
    query: Seq<(String, String)>,
)
    ensures
        request_url_of(origin, token, path, query) == request_url_of(
            origin,
            token,
            path,
            Seq::empty(),
        ) + query_suffix(query),
{
    assert(query_suffix(Seq::<(String, String)>::empty()) =~= Seq::<char>::empty());
    assert(request_url_of(origin, token, path, Seq::empty()) =~= origin + path
        + "?X-Plex-Token="@ + token);
}

/// Law: a request URL is the origin, the path, `?X-Plex-Token=` and the
/// token, then `&name=value` for each query parameter in order.
pub proof fn lemma_request_url_parts(
    origin: Seq<char>,
    token: Seq<char>,
    path: Seq<char>,
    query: Seq<(String, String)>,
    name: String,
    value: String,
)
    ensures
        request_url_of(origin, token, path, query) == origin + path + "?X-Plex-Token="@ + token
            + query_suffix(query),
        query_suffix(Seq::empty()) == Seq::<char>::empty(),
        query_suffix(query.push((name, value))) == query_suffix(query) + "&"@ + name@ + "="@
            + value@,
{
    assert(query.push((name, value)).drop_last() =~= query);
}

} // verus!
