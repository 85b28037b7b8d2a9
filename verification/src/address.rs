//! URLs, as text. What a URL is made of and how a path is put on it is the
//! `url` crate's business.

use vstd::prelude::*;
use vstd::string::*;

use crate::failure::{Failure, FailureView};
use crate::text::{ends_in, ends_with, same};

verus! {

/// Longest URL, in characters of its normal form, whose path can be replaced:
/// every offset in it fits in 32 bits, with a few to spare for what the path
/// gains.
pub const MAX_URL_CHARS: usize = 0xffff_ff00;

/// Why a longer URL is refused.
pub const TOO_LONG: &'static str = "URLs more than 4 GB are not supported";

/// What the operator reads of a URL.
#[derive(Debug)]
pub struct Address {
    pub scheme: String,
    /// What comes before the path: scheme, user, host and port.
    pub before: String,
    pub path: String,
    /// What comes after the path: query and fragment.
    pub after: String,
}

/// A URL as seen by contracts.
#[verifier::ext_equal]
pub struct AddressView {
    pub scheme: Seq<char>,
    pub before: Seq<char>,
    pub path: Seq<char>,
    pub after: Seq<char>,
}

impl AddressView {
    /// The URL in its normal form.
    pub open spec fn text(self) -> Seq<char> {
        self.before + self.path + self.after
    }

    /// The URL with a path that ends in a slash, which is appended where it
    /// is missing.
    pub open spec fn slashed(self) -> AddressView {
        AddressView { path: slashed_path(self.path), ..self }
    }

    /// Whether a slash is missing at the end of the path and the URL is too
    /// long to have one appended.
    pub open spec fn too_long(self) -> bool {
        !ends_in(self.path, '/') && self.text().len() > MAX_URL_CHARS
    }
}

impl View for Address {
    type V = AddressView;

    open spec fn view(&self) -> AddressView {
        AddressView {
            scheme: self.scheme@,
            before: self.before@,
            path: self.path@,
            after: self.after@,
        }
    }
}

impl Address {
    /// The URL in its normal form.
    pub fn text(&self) -> (r: String)
        ensures
            r@ == self@.text(),
    {
        self.before.clone().concat(self.path.as_str()).concat(self.after.as_str())
    }
}

/// `path`, with a slash appended unless it ends in one.
pub open spec fn slashed_path(path: Seq<char>) -> Seq<char> {
    if ends_in(path, '/') {
        path
    } else {
        path + "/"@
    }
}

/// What a text is as a URL, or why it is none.
pub uninterp spec fn parsed_url(text: Seq<char>) -> Result<AddressView, Seq<char>>;

/// `Url::parse`, with `Url::scheme`, `Url::path` and what stands before and
/// after the path in the serialization, or the words of its error. All are
/// functions of the text. The serialization of an http(s) URL parses to the
/// same URL, which is one of the invariants that the `url` crate keeps.
#[verifier::external_body]
pub(crate) fn parse_url(text: &str) -> (r: Result<Address, String>)
    ensures
        match r {
            Ok(address) => {
                &&& parsed_url(text@) == Ok::<AddressView, Seq<char>>(address@)
                &&& is_web(address.scheme@) ==> parsed_url(address@.text()) == Ok::<
                    AddressView,
                    Seq<char>,
                >(address@)
            },
            Err(words) => parsed_url(text@) == Err::<AddressView, Seq<char>>(words@),
        },
{
    match url::Url::parse(text) {
        Ok(u) => Ok(
            Address {
                scheme: u.scheme().to_string(),
                before: u[..url::Position::BeforePath].to_string(),
                path: u.path().to_string(),
                after: u[url::Position::AfterPath..].to_string(),
            },
        ),
        Err(e) => Err(e.to_string()),
    }
}

/// What becomes of the URL `text` when its path is replaced by `path`, or why
/// `text` is no URL.
pub uninterp spec fn url_with_path(text: Seq<char>, path: Seq<char>) -> Result<
    AddressView,
    Seq<char>,
>;

/// `Url::set_path` on the URL `text`, where `path` is the path of that URL
/// with a slash appended; the outcome is a function of both texts. It fails
/// only where `text` is no URL, and then in the words of `Url::parse`. What
/// stands before and after the path stays. An http(s) URL gets the path as it
/// is, since that of a parsed URL is in its normal form already, and what it
/// serializes to parses to the same URL. `Url::set_path` panics where the
/// path ends beyond 4 GiB. A serialization holds ASCII only, so that the bound
/// on its characters is one on its bytes.
#[verifier::external_body]
pub(crate) fn set_path(text: &str, path: &str) -> (r: Result<Address, String>)
    requires
        parsed_url(text@) matches Ok(url) ==> path@ == url.path + "/"@ && url.text().len()
            <= MAX_URL_CHARS,
    ensures
        match r {
            Ok(address) => {
                &&& url_with_path(text@, path@) == Ok::<AddressView, Seq<char>>(address@)
                &&& parsed_url(text@) is Ok
                &&& address.scheme@ == parsed_url(text@)->Ok_0.scheme
                &&& address.before@ == parsed_url(text@)->Ok_0.before
                &&& address.after@ == parsed_url(text@)->Ok_0.after
                &&& is_web(address.scheme@) ==> {
                    &&& address.path@ == path@
                    &&& parsed_url(address@.text()) == Ok::<AddressView, Seq<char>>(address@)
                }
            },
            Err(words) => {
                &&& url_with_path(text@, path@) == Err::<AddressView, Seq<char>>(words@)
                &&& parsed_url(text@) == Err::<AddressView, Seq<char>>(words@)
            },
        },
{
    match url::Url::parse(text) {
        Ok(mut u) => {
            u.set_path(path);
            Ok(
                Address {
                    scheme: u.scheme().to_string(),
                    before: u[..url::Position::BeforePath].to_string(),
                    path: u.path().to_string(),
                    after: u[url::Position::AfterPath..].to_string(),
                },
            )
        },
        Err(e) => Err(e.to_string()),
    }
}

/// The URL that `reference` denotes relative to `base`, or why there is
/// none.
pub uninterp spec fn joined_url(base: Seq<char>, reference: Seq<char>) -> Result<
    Seq<char>,
    Seq<char>,
>;

/// `Url::join` of the URL `base` and a reference; the outcome, or the words
/// of its error, is a function of both texts. A `base` that is no URL fails
/// in the words of `Url::parse`.
#[verifier::external_body]
pub(crate) fn join_url(base: &str, reference: &str) -> (r: Result<String, String>)
    ensures
        match r {
            Ok(url) => joined_url(base@, reference@) == Ok::<Seq<char>, Seq<char>>(url@),
            Err(words) => joined_url(base@, reference@) == Err::<Seq<char>, Seq<char>>(words@),
        },
{
    match url::Url::parse(base).and_then(|u| u.join(reference)) {
        Ok(u) => Ok(u.as_str().to_string()),
        Err(e) => Err(e.to_string()),
    }
}

/// Whether a scheme is `http` or `https`.
pub open spec fn is_web(scheme: Seq<char>) -> bool {
    scheme == "http"@ || scheme == "https"@
}

/// Whether a scheme is `http` or `https`.
pub fn is_web_scheme(scheme: &str) -> (r: bool)
    ensures
        r == is_web(scheme@),
{
    same(scheme, "http") || same(scheme, "https")
}

/// The URL as that of a directory: with a path that ends in a slash, which
/// is appended where it is missing. Paths are joined onto such a URL.
pub open spec fn directory(text: Seq<char>) -> Result<AddressView, FailureView> {
    match parsed_url(text) {
        Ok(url) => if ends_in(url.path, '/') {
            Ok(url)
        } else if url.too_long() {
            Err(FailureView::saying(TOO_LONG@))
        } else {
            match url_with_path(text, url.path + "/"@) {
                Ok(wider) => Ok(wider),
                Err(words) => Err(FailureView::saying(words)),
            }
        },
        Err(words) => Err(FailureView::saying(words)),
    }
}

/// The path that a directory's URL has in place of `path`: none if `path`
/// already ends in a slash, else `path` with one appended.
pub fn directory_path(path: &str) -> (r: Option<String>)
    ensures
        match r {
            Some(wider) => !ends_in(path@, '/') && wider@ == path@ + "/"@ && ends_in(wider@, '/'),
            None => ends_in(path@, '/'),
        },
{
    if ends_with(path, '/') {
        None
    } else {
        proof {
            reveal_strlit("/");
            assert("/"@.len() == 1 && "/"@[0] == '/');
            assert((path@ + "/"@).last() == '/');
        }
        Some(path.to_owned().concat("/"))
    }
}

/// The URL as that of a directory: with a path that ends in a slash. An
/// http(s) URL gains that slash and changes in nothing else, and the result
/// is a directory's URL that stays as it is. A URL that is too long to gain it
/// is refused.
pub fn to_directory(text: &str) -> (r: Result<Address, Failure>)
    ensures
        match r {
            Ok(address) => {
                &&& directory(text@) == Ok::<AddressView, FailureView>(address@)
                &&& parsed_url(text@) is Ok
                &&& !parsed_url(text@)->Ok_0.too_long()
                &&& address.scheme@ == parsed_url(text@)->Ok_0.scheme
                &&& address.before@ == parsed_url(text@)->Ok_0.before
                &&& address.after@ == parsed_url(text@)->Ok_0.after
                &&& is_web(address.scheme@) ==> {
                    &&& address@ == parsed_url(text@)->Ok_0.slashed()
                    &&& ends_in(address.path@, '/')
                    &&& parsed_url(address@.text()) == Ok::<AddressView, Seq<char>>(address@)
                    &&& directory(address@.text()) == Ok::<AddressView, FailureView>(address@)
                }
            },
            Err(failure) => {
                &&& directory(text@) == Err::<AddressView, FailureView>(failure@)
                &&& failure@ == match parsed_url(text@) {
                    Ok(_) => FailureView::saying(TOO_LONG@),
                    Err(words) => FailureView::saying(words),
                }
                &&& parsed_url(text@) matches Ok(url) ==> url.too_long()
            },
        },
{
    match parse_url(text) {
        Ok(address) => {
            match directory_path(address.path.as_str()) {
                Some(path) => {
                    if address.text().as_str().unicode_len() > MAX_URL_CHARS {
                        return Err(Failure::new(TOO_LONG.to_owned()));
                    }
                    match set_path(text, path.as_str()) {
                        Ok(wider) => Ok(wider),
                        Err(words) => Err(Failure::new(words)),
                    }
                },
                None => Ok(address),
            }
        },
        Err(words) => Err(Failure::new(words)),
    }
}

// --- Laws

/// A directory's path is the path itself if it ends in a slash, and else the
/// path with one appended; either way it ends in one, and making it a
/// directory's path again changes nothing.
pub proof fn directories_end_in_a_slash(path: Seq<char>)
    ensures
        slashed_path(path).len() > 0,
        slashed_path(path).last() == '/',
        slashed_path(slashed_path(path)) == slashed_path(path),
        path.len() > 0 && path.last() == '/' ==> slashed_path(path) == path,
        !(path.len() > 0 && path.last() == '/') ==> slashed_path(path) == path.push('/'),
{
    reveal_strlit("/");
    assert("/"@.len() == 1 && "/"@[0] == '/');
    assert(path + "/"@ =~= path.push('/'));
}

/// A URL is its parts one after the other, and as a directory's URL it keeps
/// all of them but the path.
pub proof fn urls_are_their_parts(url: AddressView, address: Address)
    ensures
        url.text().len() == url.before.len() + url.path.len() + url.after.len(),
        url.text().take(url.before.len() as int) == url.before,
        url.text().skip(url.before.len() as int).take(url.path.len() as int) == url.path,
        url.text().skip((url.before.len() + url.path.len()) as int) == url.after,
        url.slashed().scheme == url.scheme,
        url.slashed().before == url.before,
        url.slashed().after == url.after,
        url.slashed().path == slashed_path(url.path),
        url.too_long() <==> url.before.len() + url.path.len() + url.after.len() > 0xffff_ff00 && !(
        url.path.len() > 0 && url.path.last() == '/'),
        address@.scheme == address.scheme@,
        address@.before == address.before@,
        address@.path == address.path@,
        address@.after == address.after@,
{
    assert(url.text().take(url.before.len() as int) =~= url.before);
    assert(url.text().skip(url.before.len() as int).take(url.path.len() as int) =~= url.path);
    assert(url.text().skip((url.before.len() + url.path.len()) as int) =~= url.after);
}

/// The schemes of the web are `http` and `https` and no others.
pub proof fn the_web_has_two_schemes(scheme: Seq<char>)
    ensures
        is_web(scheme) <==> scheme == seq!['h', 't', 't', 'p'] || scheme == seq![
            'h',
            't',
            't',
            'p',
            's',
        ],
{
    reveal_strlit("http");
    reveal_strlit("https");
    assert("http"@ =~= seq!['h', 't', 't', 'p']);
    assert("https"@ =~= seq!['h', 't', 't', 'p', 's']);
}

/// A URL whose path ends in a slash is a directory's as it stands. One whose
/// path does not gets a slash appended, unless it is too long for that. What
/// is no URL is refused in the words of the parser.
pub proof fn directories_are_made_by_appending(text: Seq<char>)
    ensures
        match parsed_url(text) {
            Ok(url) => {
                let slashed = url.path.len() > 0 && url.path.last() == '/';
                let length = url.before.len() + url.path.len() + url.after.len();
                &&& slashed ==> directory(text) == Ok::<AddressView, FailureView>(url)
                &&& !slashed && length > 0xffff_ff00 ==> (directory(text) matches Err(e)
                    && e.http is None && e.zapp is None && e.chain
                    == seq!["URLs more than 4 GB are not supported"@])
                &&& !slashed && length <= 0xffff_ff00 ==> match url_with_path(
                    text,
                    url.path + "/"@,
                ) {
                    Ok(wider) => directory(text) == Ok::<AddressView, FailureView>(wider),
                    Err(words) => directory(text) matches Err(e) && e.chain == seq![words],
                }
            },
            Err(words) => directory(text) matches Err(e) && e.http is None && e.zapp is None
                && e.chain == seq![words],
        },
{
    if parsed_url(text) is Ok {
        let url = parsed_url(text)->Ok_0;
        assert(url.text().len() == url.before.len() + url.path.len() + url.after.len());
    }
}

} // verus!
