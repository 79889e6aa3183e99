//! The registry of URLs: what each identity has published about itself.

use vstd::prelude::*;
use vstd::std_specs::iter::IteratorSpec;
use vstd::string::group_string_axioms;

use crate::dictionary::Dictionary;
use crate::error::{took_step, ContractError};
use crate::identity::Identity;
use crate::views::{option_view, viewed};

verus! {

/// A URL is accepted if it begins with `https://` or with `http://`, in lower
/// case.  Nothing else is asked of it.
pub open spec fn valid_url(url: Seq<char>) -> bool {
    "https://"@.is_prefix_of(url) || "http://"@.is_prefix_of(url)
}

/// An accepted URL is not the empty string.
pub proof fn lemma_valid_url_not_empty(url: Seq<char>)
    requires
        valid_url(url),
    ensures
        url.len() >= 7,
{
    reveal_strlit("https://");
    reveal_strlit("http://");
}

/// Whether `text` begins with `prefix`.
pub fn starts_with(text: &str, prefix: &str) -> (found: bool)
    ensures
        found == prefix@.is_prefix_of(text@),
{
    broadcast use group_string_axioms;

    let mut rest = text.chars();
    let mut wanted = prefix.chars();
    let ghost mut n: int = 0;
    loop
        invariant
            0 <= n <= prefix@.len(),
            n <= text@.len(),
            rest.obeys_prophetic_iter_laws(),
            wanted.obeys_prophetic_iter_laws(),
            rest.remaining() == text@.skip(n),
            wanted.remaining() == prefix@.skip(n),
            forall|i: int| 0 <= i < n ==> text@[i] == prefix@[i],
        decreases prefix@.len() - n,
    {
        match wanted.next() {
            None => {
                return true;
            },
            Some(p) => {
                match rest.next() {
                    None => {
                        return false;
                    },
                    Some(c) => {
                        if c != p {
                            proof {
                                assert(text@[n] != prefix@[n]);
                                if prefix@.is_prefix_of(text@) {
                                    assert(text@.subrange(0, prefix@.len() as int)[n] == prefix@[n]);
                                }
                            }
                            return false;
                        }
                    },
                }
            },
        }
        proof {
            assert(text@.skip(n).drop_first() =~= text@.skip(n + 1));
            assert(prefix@.skip(n).drop_first() =~= prefix@.skip(n + 1));
            n = n + 1;
        }
    }
}

/// Whether a URL is accepted.
pub fn is_valid_url(url: &str) -> (valid: bool)
    ensures
        valid == valid_url(url@),
{
    starts_with(url, "https://") || starts_with(url, "http://")
}

/// The registry of URLs as a mathematical value.
#[verifier::ext_equal]
pub struct UrlsView {
    /// What was last written for each identity that was ever written to.  The
    /// empty string marks a URL that was deleted.
    pub entries: Map<Identity, Seq<char>>,
}

impl UrlsView {
    /// What is stored for `address`, if anything was ever written for it.  A
    /// deleted URL is stored as the empty string.
    pub open spec fn get(self, address: Identity) -> Option<Seq<char>> {
        if self.entries.contains_key(address) {
            Some(self.entries[address])
        } else {
            None
        }
    }

    /// The URL of `address` as a reader sees it: the empty string where none
    /// was ever written and where it was deleted.
    pub open spec fn url_of(self, address: Identity) -> Seq<char> {
        match self.get(address) {
            Some(url) => url,
            None => Seq::empty(),
        }
    }

    /// Whether `address` has a URL.
    pub open spec fn has_url(self, address: Identity) -> bool {
        self.url_of(address).len() > 0
    }

    /// What holds of every state that the registry can reach: whatever is
    /// stored is the empty string or an accepted URL.
    pub open spec fn inv(self) -> bool {
        &&& self.entries.dom().finite()
        &&& forall|address: Identity| #[trigger]
            self.entries.contains_key(address) ==> self.entries[address].len() == 0 || valid_url(
                self.entries[address],
            )
    }

    /// The registry at installation: nothing is stored.
    pub open spec fn init() -> UrlsView {
        UrlsView { entries: Map::empty() }
    }

    /// Writing `url` for `address`: aborts with `BadUrlFormat` unless the URL
    /// is accepted; otherwise stores it over whatever stood there.
    pub open spec fn set(self, address: Identity, url: Seq<char>) -> Result<
        UrlsView,
        ContractError,
    > {
        if valid_url(url) {
            Ok(UrlsView { entries: self.entries.insert(address, url) })
        } else {
            Err(ContractError::BadUrlFormat)
        }
    }

    /// Deleting the URL of `address`: stores the empty string for it,
    /// whatever stood there.
    pub open spec fn delete(self, address: Identity) -> UrlsView {
        UrlsView { entries: self.entries.insert(address, Seq::empty()) }
    }

    /// Writing a URL keeps what is stored empty or accepted.
    pub proof fn lemma_set_inv(self, address: Identity, url: Seq<char>)
        requires
            self.inv(),
        ensures
            self.set(address, url) matches Ok(next) ==> next.inv(),
    {
    }

    /// Deleting a URL keeps what is stored empty or accepted.
    pub proof fn lemma_delete_inv(self, address: Identity)
        requires
            self.inv(),
        ensures
            self.delete(address).inv(),
    {
    }
}

/// What a reader is given for a stored entry: the URL, or the abort reason
/// `NotFound` where nothing is stored and where the empty string is.
pub open spec fn published_url(entry: Option<Seq<char>>) -> Result<Seq<char>, ContractError> {
    match entry {
        Some(url) => if url.len() > 0 {
            Ok(url)
        } else {
            Err(ContractError::NotFound)
        },
        None => Err(ContractError::NotFound),
    }
}

/// The URL to hand to a reader for what is stored under an identity.  No
/// entry and the empty string both mean that there is none.
pub fn published(entry: Option<String>) -> (url: Result<String, ContractError>)
    ensures
        viewed(url) == published_url(option_view(entry)),
{
    match entry {
        Some(stored) => {
            if stored.as_str().is_empty() {
                Err(ContractError::NotFound)
            } else {
                Ok(stored)
            }
        },
        None => Err(ContractError::NotFound),
    }
}

/// Whether what is stored under an identity is a URL.  No entry and the empty
/// string are none.
pub fn is_published(entry: &Option<String>) -> (found: bool)
    ensures
        found == (published_url(option_view(*entry)) is Ok),
{
    match entry {
        Some(stored) => !stored.as_str().is_empty(),
        None => false,
    }
}

/// The registry of URLs.
pub struct Urls {
    entries: Dictionary<Identity, String>,
}

impl View for Urls {
    type V = UrlsView;

    closed spec fn view(&self) -> UrlsView {
        UrlsView {
            entries: Map::new(
                |address: Identity| self.entries@.contains_key(address),
                |address: Identity| self.entries@[address]@,
            ),
        }
    }
}

impl Urls {
    /// The registry is well formed: it is a state that the registry can
    /// reach, so whatever is stored is the empty string or an accepted URL.
    pub closed spec fn wf(&self) -> bool {
        self.entries.wf() && self@.inv()
    }

    /// In a well-formed registry whatever is stored is the empty string or an
    /// accepted URL.
    pub proof fn lemma_wf_inv(&self)
        requires
            self.wf(),
        ensures
            self@.inv(),
    {
    }

    /// The registry at installation, with nothing stored.
    pub fn new() -> (urls: Urls)
        ensures
            urls.wf(),
            urls@ == UrlsView::init(),
    {
        let urls = Urls { entries: Dictionary::new() };
        proof {
            assert(urls@.entries =~= Map::<Identity, Seq<char>>::empty());
        }
        urls
    }

    /// Stores the accepted URL `url` for `address`.
    pub(crate) fn write(&mut self, address: &Identity, url: &str)
        requires
            old(self).wf(),
            valid_url(url@),
        ensures
            final(self).wf(),
            old(self)@.set(*address, url@) == Ok::<UrlsView, ContractError>(final(self)@),
    {
        let ghost before = self@;
        self.entries.put(*address, url.to_owned());
        proof {
            self.entries.lemma_finite();
            assert(self@.entries =~= before.entries.insert(*address, url@));
        }
    }

    /// Stores `url` for `address`, if it is an accepted URL.
    pub fn set(&mut self, address: &Identity, url: &str) -> (result: Result<(), ContractError>)
        requires
            old(self).wf(),
        ensures
            final(self).wf(),
            took_step(old(self)@.set(*address, url@), old(self)@, final(self)@, result),
    {
        if !is_valid_url(url) {
            return Err(ContractError::BadUrlFormat);
        }
        self.write(address, url);
        Ok(())
    }

    /// Deletes the URL of `address`: the empty string is stored in its place.
    pub fn delete(&mut self, address: &Identity)
        requires
            old(self).wf(),
        ensures
            final(self).wf(),
            final(self)@ == old(self)@.delete(*address),
    {
        let ghost before = self@;
        self.entries.put(*address, String::new());
        proof {
            self.entries.lemma_finite();
            assert(self@.entries =~= before.entries.insert(*address, Seq::empty()));
        }
    }

    /// What is stored for `address`, if anything was ever written for it.
    pub fn get(&self, address: &Identity) -> (url: Option<String>)
        requires
            self.wf(),
        ensures
            option_view(url) == self@.get(*address),
    {
        match self.entries.get(address) {
            Some(stored) => Some(stored.clone()),
            None => None,
        }
    }
}

} // verus!
