//! URLs of validators, kept under the validators' names, with a list of
//! privileged names that may write for others.  A URL is accepted if it
//! matches a pattern.

use regex::Regex;
use vstd::prelude::*;
use vstd::slice::slice_to_vec;
use vstd::utf8::{decode_utf8, encode_utf8, group_utf8_lib, valid_utf8};

use crate::error::{took_step, ContractError};
use crate::identity::Identity;
use crate::named_keys::{del_key, get_key, named, set_key, NamedKeys};
use crate::views::viewed;

verus! {

/// The pattern that a URL must match.
pub const URL_PATTERN: &'static str = "^https?://.*$";

/// Whether `regex::Regex::new` accepts `pattern`.
pub uninterp spec fn regex_compiles(pattern: Seq<char>) -> bool;

/// Whether the regular expression that `regex::Regex::new` makes of
/// `pattern` has a match in `haystack`, as `regex::Regex::is_match` tells.
pub uninterp spec fn regex_is_match(pattern: Seq<char>, haystack: Seq<char>) -> bool;

/// Compiles `pattern` with `regex::Regex::new` and searches `haystack` for a
/// match with `regex::Regex::is_match`.  Nothing is claimed of which patterns
/// compile and which texts match, only that both depend on the two texts
/// alone: the result is `None` where the pattern does not compile, and
/// otherwise tells whether there is a match.
#[verifier::external_body]
fn regex_match(pattern: &str, haystack: &str) -> (found: Option<bool>)
    ensures
        found == (if regex_compiles(pattern@) {
            Some(regex_is_match(pattern@, haystack@))
        } else {
            None
        }),
{
    match Regex::new(pattern) {
        Ok(regex) => Some(regex.is_match(haystack)),
        Err(_) => None,
    }
}

/// Calls `String::from_utf8`: the text whose UTF-8 encoding the bytes are,
/// or nothing where the bytes are no UTF-8 encoding.
#[verifier::external_body]
fn string_from_utf8(bytes: Vec<u8>) -> (text: Option<String>)
    ensures
        text is Some <==> valid_utf8(bytes@),
        text matches Some(t) ==> encode_utf8(t@) == bytes@,
{
    match String::from_utf8(bytes) {
        Ok(text) => Some(text),
        Err(_) => None,
    }
}

/// Whether a URL matches the pattern.
pub open spec fn matches_url_pattern(url: Seq<char>) -> bool {
    regex_compiles(URL_PATTERN@) && regex_is_match(URL_PATTERN@, url)
}

/// What the search for the pattern means for a URL: it is accepted where a
/// match was found, and refused with `BadUrlFormat` where none was found and
/// where the pattern did not compile.
pub fn url_verdict(found: Option<bool>) -> (result: Result<(), ContractError>)
    ensures
        result == (if found == Some(true) {
            Ok::<(), ContractError>(())
        } else {
            Err(ContractError::BadUrlFormat)
        }),
{
    match found {
        Some(true) => Ok(()),
        _ => Err(ContractError::BadUrlFormat),
    }
}

/// Accepts a URL that matches the pattern, and refuses any other with
/// `BadUrlFormat`.
pub fn check_url_pattern(url: &str) -> (result: Result<(), ContractError>)
    ensures
        result == (if matches_url_pattern(url@) {
            Ok::<(), ContractError>(())
        } else {
            Err(ContractError::BadUrlFormat)
        }),
{
    url_verdict(regex_match(URL_PATTERN, url))
}

/// The name of an identity: the text that its bytes encode, if they encode
/// one.
pub open spec fn caller_name(caller: Identity) -> Option<Seq<char>> {
    if valid_utf8(caller@) {
        Some(decode_utf8(caller@))
    } else {
        None
    }
}

/// The name of the caller, under which its URL is kept.  Aborts with
/// `ReadingCallerError` where the caller's bytes encode no text.
pub fn get_caller_name(caller: &Identity) -> (name: Result<String, ContractError>)
    ensures
        viewed(name) == (match caller_name(*caller) {
            Some(text) => Ok(text),
            None => Err(ContractError::ReadingCallerError),
        }),
{
    broadcast use group_utf8_lib;

    let bytes = caller.value();
    match string_from_utf8(slice_to_vec(bytes.as_slice())) {
        Some(name) => Ok(name),
        None => Err(ContractError::ReadingCallerError),
    }
}

/// The registry as a mathematical value.
#[verifier::ext_equal]
pub struct CvicView {
    /// The URLs, under the names of the validators.
    pub urls: Map<Seq<char>, Seq<char>>,
    /// The privileged names.
    pub admins: Seq<Seq<char>>,
}

impl CvicView {
    /// Whether `name` is privileged.
    pub open spec fn has_admin_rights(self, name: Seq<char>) -> bool {
        self.admins.contains(name)
    }

    /// Whether the caller may write for others: aborts with
    /// `ReadingCallerError` where the caller has no name, and with
    /// `NotAllowed` where its name is not privileged.
    pub open spec fn authorize(self, caller: Identity) -> Result<(), ContractError> {
        match caller_name(caller) {
            None => Err(ContractError::ReadingCallerError),
            Some(name) => if self.has_admin_rights(name) {
                Ok(())
            } else {
                Err(ContractError::NotAllowed)
            },
        }
    }

    /// Keeping `url` under `name`: aborts with `BadUrlFormat` unless the URL
    /// matches the pattern.
    pub open spec fn publish(self, name: Seq<char>, url: Seq<char>) -> Result<
        CvicView,
        ContractError,
    > {
        if matches_url_pattern(url) {
            Ok(CvicView { urls: self.urls.insert(name, url), ..self })
        } else {
            Err(ContractError::BadUrlFormat)
        }
    }

    /// The caller publishes `url` for itself.  Aborts with `BadUrlFormat`,
    /// then with `ReadingCallerError`.
    pub open spec fn set_url(self, caller: Identity, url: Seq<char>) -> Result<
        CvicView,
        ContractError,
    > {
        if !matches_url_pattern(url) {
            Err(ContractError::BadUrlFormat)
        } else {
            match caller_name(caller) {
                None => Err(ContractError::ReadingCallerError),
                Some(name) => self.publish(name, url),
            }
        }
    }

    /// The URL kept under `public_key`, or the abort reason `NotFound`.
    pub open spec fn get_url(self, public_key: Seq<char>) -> Result<Seq<char>, ContractError> {
        match named(self.urls, public_key) {
            Some(url) => Ok(url),
            None => Err(ContractError::NotFound),
        }
    }

    /// The caller removes its URL.  Aborts with `ReadingCallerError`.
    pub open spec fn delete_url(self, caller: Identity) -> Result<CvicView, ContractError> {
        match caller_name(caller) {
            None => Err(ContractError::ReadingCallerError),
            Some(name) => Ok(CvicView { urls: self.urls.remove(name), ..self }),
        }
    }

    /// A privileged caller publishes `url` for `public_hash`.  Aborts as
    /// `authorize` does, then with `BadUrlFormat`.
    pub open spec fn set_url_for_validator(
        self,
        caller: Identity,
        public_hash: Seq<char>,
        url: Seq<char>,
    ) -> Result<CvicView, ContractError> {
        match self.authorize(caller) {
            Err(reason) => Err(reason),
            Ok(_) => self.publish(public_hash, url),
        }
    }

    /// A privileged caller removes the URL of `public_hash`.  Aborts as
    /// `authorize` does.
    pub open spec fn delete_url_for_validator(self, caller: Identity, public_hash: Seq<char>) -> Result<
        CvicView,
        ContractError,
    > {
        match self.authorize(caller) {
            Err(reason) => Err(reason),
            Ok(_) => Ok(CvicView { urls: self.urls.remove(public_hash), ..self }),
        }
    }
}

/// The texts of a list of strings.
pub open spec fn texts(list: Seq<String>) -> Seq<Seq<char>> {
    Seq::new(list.len(), |i: int| list[i]@)
}

/// The registry of validators' URLs.
pub struct Cvic {
    keys: NamedKeys,
    admins: Vec<String>,
}

impl View for Cvic {
    type V = CvicView;

    closed spec fn view(&self) -> CvicView {
        CvicView { urls: self.keys@, admins: texts(self.admins@) }
    }
}

impl Cvic {
    /// The registry is well formed.
    pub closed spec fn wf(&self) -> bool {
        self.keys.wf()
    }
}

/// The registry at installation: no URLs, and the given privileged names.
pub fn constructor(admins: Vec<String>) -> (cvic: Cvic)
    ensures
        cvic.wf(),
        cvic@ == (CvicView { urls: Map::empty(), admins: texts(admins@) }),
{
    Cvic { keys: NamedKeys::new(), admins }
}

/// Whether the name `caller` is privileged.
#[allow(non_snake_case)]
pub fn hasAdminRights(cvic: &Cvic, caller: &str) -> (privileged: bool)
    ensures
        privileged == cvic@.has_admin_rights(caller@),
{
    let name = caller.to_owned();
    let mut i: usize = 0;
    while i < cvic.admins.len()
        invariant
            i <= cvic.admins@.len(),
            name@ == caller@,
            forall|j: int| 0 <= j < i ==> texts(cvic.admins@)[j] != caller@,
        decreases cvic.admins@.len() - i,
    {
        if cvic.admins[i] == name {
            assert(texts(cvic.admins@)[i as int] == caller@);
            return true;
        }
        i += 1;
    }
    false
}

/// Lets the call go on only if its caller is privileged.
#[allow(non_snake_case)]
pub fn assertAdminRights(cvic: &Cvic, caller: &Identity) -> (result: Result<(), ContractError>)
    ensures
        result == cvic@.authorize(*caller),
{
    match get_caller_name(caller) {
        Err(reason) => Err(reason),
        Ok(name) => {
            if hasAdminRights(cvic, name.as_str()) {
                Ok(())
            } else {
                Err(ContractError::NotAllowed)
            }
        },
    }
}

/// The caller publishes `url` for itself.
#[allow(non_snake_case)]
pub fn setUrl(cvic: &mut Cvic, caller: &Identity, url: &str) -> (result: Result<
    (),
    ContractError,
>)
    requires
        old(cvic).wf(),
    ensures
        final(cvic).wf(),
        took_step(old(cvic)@.set_url(*caller, url@), old(cvic)@, final(cvic)@, result),
{
    match check_url_pattern(url) {
        Err(reason) => Err(reason),
        Ok(()) => match get_caller_name(caller) {
            Err(reason) => Err(reason),
            Ok(name) => {
                set_key(&mut cvic.keys, name.as_str(), url);
                Ok(())
            },
        },
    }
}

/// The URL kept under `public_key`.
#[allow(non_snake_case)]
pub fn getUrl(cvic: &Cvic, public_key: &str) -> (url: Result<String, ContractError>)
    requires
        cvic.wf(),
    ensures
        viewed(url) == cvic@.get_url(public_key@),
{
    match get_key(&cvic.keys, public_key) {
        Some(url) => Ok(url),
        None => Err(ContractError::NotFound),
    }
}

/// The caller removes its URL.
#[allow(non_snake_case)]
pub fn deleteUrl(cvic: &mut Cvic, caller: &Identity) -> (result: Result<(), ContractError>)
    requires
        old(cvic).wf(),
    ensures
        final(cvic).wf(),
        took_step(old(cvic)@.delete_url(*caller), old(cvic)@, final(cvic)@, result),
{
    match get_caller_name(caller) {
        Err(reason) => Err(reason),
        Ok(name) => {
            del_key(&mut cvic.keys, name.as_str());
            Ok(())
        },
    }
}

/// A privileged caller publishes `url` for `public_hash`.
#[allow(non_snake_case)]
pub fn setUrlForValidator(cvic: &mut Cvic, caller: &Identity, public_hash: &str, url: &str) -> (result:
    Result<(), ContractError>)
    requires
        old(cvic).wf(),
    ensures
        final(cvic).wf(),
        took_step(
            old(cvic)@.set_url_for_validator(*caller, public_hash@, url@),
            old(cvic)@,
            final(cvic)@,
            result,
        ),
{
    match assertAdminRights(cvic, caller) {
        Err(reason) => Err(reason),
        Ok(()) => match check_url_pattern(url) {
            Err(reason) => Err(reason),
            Ok(()) => {
                set_key(&mut cvic.keys, public_hash, url);
                Ok(())
            },
        },
    }
}

/// A privileged caller removes the URL of `public_hash`.
#[allow(non_snake_case)]
pub fn deleteUrlForValidator(cvic: &mut Cvic, caller: &Identity, public_hash: &str) -> (result:
    Result<(), ContractError>)
    requires
        old(cvic).wf(),
    ensures
        final(cvic).wf(),
        took_step(
            old(cvic)@.delete_url_for_validator(*caller, public_hash@),
            old(cvic)@,
            final(cvic)@,
            result,
        ),
{
    match assertAdminRights(cvic, caller) {
        Err(reason) => Err(reason),
        Ok(()) => {
            del_key(&mut cvic.keys, public_hash);
            Ok(())
        },
    }
}

} // verus!
