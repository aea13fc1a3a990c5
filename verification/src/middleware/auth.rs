use vstd::prelude::*;
use crate::http::Status;
use crate::handlers::auth::Claims;

verus! {

/// The user on whose behalf a request runs, as the bearer token names them.
#[derive(Clone, Debug)]
pub struct AuthUser {
    pub user_id: String,
}

/// The scheme word that must open an `Authorization` header.
pub open spec fn bearer_prefix() -> Seq<char> {
    "Bearer "@
}

/// The token carried by an `Authorization` header: what follows the
/// `Bearer ` prefix, when the header starts with it.
pub open spec fn bearer_token_of(header: Seq<char>) -> Option<Seq<char>> {
    if header.len() >= bearer_prefix().len() && header.subrange(0, bearer_prefix().len() as int)
        == bearer_prefix() {
        Some(header.subrange(bearer_prefix().len() as int, header.len() as int))
    } else {
        None
    }
}

/// Takes the bearer token out of an optional `Authorization` header. A missing
/// header, or one that does not start with `Bearer `, is answered with 401.
pub fn bearer_token(header: Option<&str>) -> (token: Result<String, Status>)
    ensures
        match header {
            None => token == Err::<String, Status>(Status::Unauthorized),
            Some(h) => match bearer_token_of(h@) {
                Some(t) => token matches Ok(s) && s@ == t,
                None => token == Err::<String, Status>(Status::Unauthorized),
            },
        },
{
    let h = match header {
        Some(h) => h,
        None => return Err(Status::Unauthorized),
    };
    let prefix = "Bearer ";
    proof {
        reveal_strlit("Bearer ");
    }
    let n = h.unicode_len();
    let p = prefix.unicode_len();
    if n < p {
        return Err(Status::Unauthorized);
    }
    let mut i: usize = 0;
    while i < p
        invariant
            header == Some(h),
            p == prefix@.len(),
            prefix@ == bearer_prefix(),
            n == h@.len(),
            p <= n,
            i <= p,
            forall|k: int| 0 <= k < i ==> h@[k] == prefix@[k],
        decreases p - i,
    {
        if h.get_char(i) != prefix.get_char(i) {
            assert(h@.subrange(0, p as int)[i as int] != bearer_prefix()[i as int]);
            assert(h@.subrange(0, p as int) != bearer_prefix());
            assert(bearer_token_of(h@) is None);
            return Err(Status::Unauthorized);
        }
        i = i + 1;
    }
    assert(h@.subrange(0, p as int) =~= bearer_prefix());
    let rest = h.substring_char(p, n);
    Ok(String::from_str(rest))
}

/// Turns the outcome of checking a bearer token into the user the request runs
/// for: a token that did not check out is answered with 401.
pub fn authorize(checked: Option<Claims>) -> (user: Result<AuthUser, Status>)
    ensures
        match checked {
            Some(c) => user matches Ok(u) && u.user_id == c.sub,
            None => user == Err::<AuthUser, Status>(Status::Unauthorized),
        },
{
    match checked {
        Some(c) => Ok(AuthUser { user_id: c.sub }),
        None => Err(Status::Unauthorized),
    }
}

} // verus!
