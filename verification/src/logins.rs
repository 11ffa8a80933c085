//! Credential-store reconciliation: given the row the store already holds
//! for a site, decide what to return and what to insert. The store lookup
//! and the insert itself are the caller's; this module owns the decision
//! and the values the insert receives.

use vstd::prelude::*;

verus! {

/// A credential pair, as handed back to the caller.
#[derive(Debug, Clone)]
pub struct LoginData {
    pub username: String,
    pub password: String,
}

/// What the caller asks the credential store to hold for one site.
#[derive(Debug, Clone)]
pub struct LoginCreationParams {
    pub username: String,
    pub password: String,
    pub url: String,
    pub username_field: String,
    pub password_field: String,
}

/// What the store must do after looking up the existing row for a site.
pub enum LoginDecision {
    /// The stored credentials equal the provided ones: change nothing and
    /// hand the provided pair back.
    KeepProvided,
    /// A row exists with different credentials: change nothing and hand the
    /// stored pair back.
    UseStored(LoginData),
    /// No row exists: insert the provided credentials and hand them back.
    InsertNew,
}

/// Decide what to do with the provided credentials, given the row the store
/// already holds for the site's field and URL (or `None` when it holds
/// none).
pub fn reconcile_login(params: &LoginCreationParams, stored: Option<LoginData>) -> (r:
    LoginDecision)
    ensures
        match stored {
            None => r is InsertNew,
            Some(row) => if row.username@ == params.username@ && row.password@
                == params.password@ {
                r is KeepProvided
            } else {
                r matches LoginDecision::UseStored(d) && d.username@ == row.username@
                    && d.password@ == row.password@
            },
        },
{
    match stored {
        None => LoginDecision::InsertNew,
        Some(row) => {
            if row.username == params.username && row.password == params.password {
                LoginDecision::KeepProvided
            } else {
                LoginDecision::UseStored(row)
            }
        },
    }
}

/// The scheme of a URL, as the `url` crate parses it out of the string.
pub uninterp spec fn url_scheme_of(url: Seq<char>) -> Seq<char>;

/// The host of a URL, as the `url` crate parses it out of the string.
pub uninterp spec fn url_host_of(url: Seq<char>) -> Seq<char>;

/// Whether the `url` crate parses the string as an absolute URL that has a
/// host. Parsing depends on the string alone.
pub uninterp spec fn url_parses_with_host(url: Seq<char>) -> bool;

/// Relies on `url::Url::parse`, `Url::scheme` and `Url::host_str`: parsing
/// is a pure function of the input string; `scheme` returns the lower-cased
/// scheme without the `:`, and `host_str` the host, which some URLs lack.
/// Returns `None` exactly when the string does not parse as an absolute URL
/// or the URL has no host.
#[verifier::external_body]
fn parse_scheme_host(url: &str) -> (r: Option<(String, String)>)
    ensures
        r is Some <==> url_parses_with_host(url@),
        r matches Some(sh) ==> sh.0@ == url_scheme_of(url@) && sh.1@ == url_host_of(url@),
{
    match url::Url::parse(url) {
        Ok(u) => match u.host_str() {
            Some(h) => Some((u.scheme().to_string(), h.to_string())),
            None => None,
        },
        Err(_) => None,
    }
}

/// The signon realm recorded beside an inserted credential row: the scheme
/// and host of the site's URL, in URL shape.
pub fn signon_realm(scheme: &str, host: &str) -> (r: String)
    ensures
        r@ == scheme@ + "://"@ + host@ + "/"@,
{
    let mut s = String::from_str(scheme);
    s.append("://");
    s.append(host);
    s.append("/");
    s
}

/// The seven parameter values of the credential insert, in placeholder
/// order: origin URL, action URL, the two field names around their values,
/// and the signon realm derived from the URL. `None` exactly when the site
/// URL does not parse or has no host (the store cannot record a realm for
/// it).
pub fn login_insert_values(params: &LoginCreationParams) -> (r: Option<Vec<String>>)
    ensures
        r is Some <==> url_parses_with_host(params.url@),
        r matches Some(v) ==> {
            &&& v@.len() == 7
            &&& v@[0]@ == params.url@
            &&& v@[1]@ == params.url@
            &&& v@[2]@ == params.username_field@
            &&& v@[3]@ == params.username@
            &&& v@[4]@ == params.password_field@
            &&& v@[5]@ == params.password@
            &&& v@[6]@ == url_scheme_of(params.url@) + "://"@ + url_host_of(params.url@)
                + "/"@
        },
{
    match parse_scheme_host(params.url.as_str()) {
        None => None,
        Some((scheme, host)) => {
            let realm = signon_realm(scheme.as_str(), host.as_str());
            let mut v: Vec<String> = Vec::new();
            v.push(params.url.clone());
            v.push(params.url.clone());
            v.push(params.username_field.clone());
            v.push(params.username.clone());
            v.push(params.password_field.clone());
            v.push(params.password.clone());
            v.push(realm);
            Some(v)
        },
    }
}

} // verus!
