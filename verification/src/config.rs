//! Configuration of the operator.

use vstd::prelude::*;
use vstd::string::*;

use crate::address::{
    is_web, is_web_scheme, parsed_url, to_directory, AddressView, TOO_LONG,
};
use crate::failure::{Failure, FailureView};
use crate::text::{opt_view, same};
use crate::time::Duration;

verus! {

#[derive(Debug)]
pub struct Config {
    /// Address the health endpoint listens on, e.g. "0.0.0.0:8080".
    pub listen: String,
    /// Namespace whose `OIDCApplication` and `ProjectRole` resources are
    /// managed. All namespaces when unset.
    pub namespace: Option<String>,
    /// How often every resource is re-synced with Zitadel even without a
    /// change, e.g. "10m". Drift in Zitadel is repaired on that cadence.
    pub sync_interval: Duration,
    pub zapp: ZappConfig,
}

#[derive(Debug)]
pub struct ZappConfig {
    /// Base URL of the zapp server that hands out the Zitadel project
    /// credential, e.g. "https://zapp.example.com".
    pub url: String,
    /// Path to the Kubernetes service account token presented to zapp. In a
    /// pod this is a projected volume whose audience matches zapp's
    /// `verification.audience`; the kubelet keeps it fresh.
    pub token_file: String,
    /// Directory the Zitadel machine key received from zapp is written to
    /// for the moment the Zitadel client reads it; the file is removed right
    /// after. Point this at memory-backed storage (a `tmpfs`) so the key
    /// never touches a disk.
    pub key_dir: String,
    /// Timeout in seconds for requests to zapp.
    pub timeout_secs: u64,
}

/// What is wrong with the values of a configuration whose zapp URL has this
/// scheme; the first of several.
pub open spec fn defect(
    scheme: Seq<char>,
    sync_interval: Duration,
    timeout_secs: u64,
    namespace: Option<Seq<char>>,
) -> Option<Seq<char>> {
    if !is_web(scheme) {
        Some("zapp.url must be an http(s) URL"@)
    } else if sync_interval.total() == 0 {
        Some("sync_interval must be positive"@)
    } else if timeout_secs == 0 {
        Some("zapp.timeout_secs must be positive"@)
    } else if namespace == Some(Seq::<char>::empty()) {
        Some("namespace must not be empty; omit it to watch all namespaces"@)
    } else {
        None
    }
}

/// What is wrong with the values of a configuration whose zapp URL has this
/// scheme; the first of several.
pub fn find_defect(
    scheme: &str,
    sync_interval: &Duration,
    timeout_secs: u64,
    namespace: &Option<String>,
) -> (r: Option<&'static str>)
    ensures
        match r {
            Some(text) => defect(scheme@, *sync_interval, timeout_secs, opt_view(*namespace))
                == Some(text@),
            None => defect(scheme@, *sync_interval, timeout_secs, opt_view(*namespace)) is None,
        },
{
    if !is_web_scheme(scheme) {
        return Some("zapp.url must be an http(s) URL");
    }
    if sync_interval.is_zero() {
        return Some("sync_interval must be positive");
    }
    if timeout_secs == 0 {
        return Some("zapp.timeout_secs must be positive");
    }
    match namespace {
        Some(name) => {
            proof {
                assert(name@.len() == 0 <==> name@ =~= Seq::<char>::empty());
            }
            if name.as_str().unicode_len() == 0 {
                Some("namespace must not be empty; omit it to watch all namespaces")
            } else {
                None
            }
        },
        None => None,
    }
}

impl Config {
    /// Why the configuration is refused, if it is.
    pub open spec fn refusal(self) -> Option<FailureView> {
        match parsed_url(self.zapp.url@) {
            Err(words) => Some(FailureView::saying(words)),
            Ok(url) if url.too_long() => Some(FailureView::saying(TOO_LONG@)),
            Ok(url) => match defect(
                url.scheme,
                self.sync_interval,
                self.zapp.timeout_secs,
                opt_view(self.namespace),
            ) {
                Some(text) => Some(FailureView::saying(text)),
                None => None,
            },
        }
    }

    /// Whether the configuration can be run with: zapp has an http(s) URL of
    /// manageable length, neither interval nor timeout is zero, and there is
    /// no namespace without a name.
    pub open spec fn acceptable(self) -> bool {
        &&& parsed_url(self.zapp.url@) is Ok
        &&& !parsed_url(self.zapp.url@)->Ok_0.too_long()
        &&& is_web(parsed_url(self.zapp.url@)->Ok_0.scheme)
        &&& self.sync_interval.total() > 0
        &&& self.zapp.timeout_secs > 0
        &&& self.namespace matches Some(name) ==> name@.len() > 0
    }

    /// Whether `other` is this configuration with the zapp URL made that of
    /// a directory: in its normal form, with a path that ends in a slash.
    pub open spec fn normalised_to(self, other: Config) -> bool {
        &&& other.listen == self.listen
        &&& other.namespace == self.namespace
        &&& other.sync_interval == self.sync_interval
        &&& other.zapp.token_file == self.zapp.token_file
        &&& other.zapp.key_dir == self.zapp.key_dir
        &&& other.zapp.timeout_secs == self.zapp.timeout_secs
        &&& parsed_url(self.zapp.url@) is Ok
        &&& other.zapp.url@ == parsed_url(self.zapp.url@)->Ok_0.slashed().text()
        &&& parsed_url(other.zapp.url@) == Ok::<AddressView, Seq<char>>(
            parsed_url(self.zapp.url@)->Ok_0.slashed(),
        )
    }

    /// Checks the configuration and makes the zapp URL that of a directory,
    /// since paths are joined onto it. What comes of it passes the check and
    /// stays as it is.
    pub fn validated(self) -> (r: Result<Config, Failure>)
        ensures
            match r {
                Ok(config) => {
                    &&& self.refusal() is None
                    &&& self.acceptable()
                    &&& self.normalised_to(config)
                    &&& config.refusal() is None
                    &&& config.acceptable()
                    &&& config.normalised_to(config)
                },
                Err(failure) => self.refusal() == Some(failure@) && !self.acceptable(),
            },
    {
        let url = match to_directory(self.zapp.url.as_str()) {
            Ok(url) => url,
            Err(failure) => {
                return Err(failure);
            },
        };
        proof {
            if self.namespace is Some && self.namespace->0@.len() == 0 {
                assert(self.namespace->0@ =~= Seq::<char>::empty());
            }
            if is_web(url.scheme@) {
                assert(url@.slashed() =~= url@);
            }
        }
        match find_defect(
            url.scheme.as_str(),
            &self.sync_interval,
            self.zapp.timeout_secs,
            &self.namespace,
        ) {
            Some(text) => Err(Failure::new(text.to_owned())),
            None => Ok(
                Config {
                    listen: self.listen,
                    namespace: self.namespace,
                    sync_interval: self.sync_interval,
                    zapp: ZappConfig {
                        url: url.text(),
                        token_file: self.zapp.token_file,
                        key_dir: self.zapp.key_dir,
                        timeout_secs: self.zapp.timeout_secs,
                    },
                },
            ),
        }
    }
}

/// Where the health endpoint listens unless told otherwise.
pub fn default_listen() -> (r: String)
    ensures
        r@ == "127.0.0.1:8080"@,
{
    "127.0.0.1:8080".to_owned()
}

/// How often everything is re-synced unless told otherwise.
pub fn default_sync_interval() -> (r: Duration)
    ensures
        r == (Duration { secs: 600, nanos: 0 }),
{
    Duration::from_secs(10 * 60)
}

/// Where the service account token is unless told otherwise.
pub fn default_token_file() -> (r: String)
    ensures
        r@ == "/var/run/secrets/cnoidc/token"@,
{
    "/var/run/secrets/cnoidc/token".to_owned()
}

/// How long requests to zapp may take unless told otherwise.
pub fn default_timeout_secs() -> (r: u64)
    ensures
        r == 10,
{
    10
}

/// What the program is asked to do.
#[derive(Debug)]
pub enum Command {
    /// To print the definitions of the custom resources; the Helm chart's
    /// `crds/` directory is generated from them.
    Definitions,
    /// To run with the configuration at this path.
    Run(String),
}

/// What the program is asked to do by its first argument.
pub fn command(argument: Option<String>) -> (r: Command)
    ensures
        match argument {
            Some(text) => if text@ == "crd"@ {
                r is Definitions
            } else {
                r == Command::Run(text)
            },
            None => r matches Command::Run(path) && path@ == "cnoidc.toml"@,
        },
{
    match argument {
        Some(text) => {
            if same(text.as_str(), "crd") {
                Command::Definitions
            } else {
                Command::Run(text)
            }
        },
        None => Command::Run("cnoidc.toml".to_owned()),
    }
}

// --- Laws

/// A configuration is refused for the first thing that is wrong with it, in
/// the order in which they are listed here, and it is said what that is.
pub proof fn configurations_are_refused_for_the_first_defect(config: Config)
    ensures
        ({
            let url = parsed_url(config.zapp.url@);
            let path = url->Ok_0.path;
            let unslashed = url is Ok && !(path.len() > 0 && path.last() == '/');
            let length = (url->Ok_0.before + path + url->Ok_0.after).len();
            let web = url->Ok_0.scheme == "http"@ || url->Ok_0.scheme == "https"@;
            let idle = config.sync_interval.secs == 0 && config.sync_interval.nanos == 0;
            let hasty = config.zapp.timeout_secs == 0;
            let nameless = config.namespace is Some && config.namespace->0@.len() == 0;
            let chain = config.refusal()->0.chain;
            &&& config.refusal() is Some <==> url is Err || (unslashed && length > 0xffff_ff00)
                || !web || idle || hasty || nameless
            &&& config.acceptable() <==> config.refusal() is None
            &&& config.refusal() is Some ==> config.refusal()->0.http is None
                && config.refusal()->0.zapp is None
            &&& url is Err ==> chain == seq![url->Err_0]
            &&& url is Ok && unslashed && length > 0xffff_ff00 ==> chain
                == seq!["URLs more than 4 GB are not supported"@]
            &&& url is Ok && !(unslashed && length > 0xffff_ff00) ==> {
                &&& !web ==> chain == seq!["zapp.url must be an http(s) URL"@]
                &&& web && idle ==> chain == seq!["sync_interval must be positive"@]
                &&& web && !idle && hasty ==> chain
                    == seq!["zapp.timeout_secs must be positive"@]
                &&& web && !idle && !hasty && nameless ==> chain
                    == seq!["namespace must not be empty; omit it to watch all namespaces"@]
            }
        }),
{
    if config.namespace is Some && config.namespace->0@.len() == 0 {
        assert(config.namespace->0@ =~= Seq::<char>::empty());
    }
    if config.sync_interval.secs > 0 || config.sync_interval.nanos > 0 {
        assert(config.sync_interval.total() > 0);
    }
}

/// The check changes nothing of a configuration but the zapp URL, which keeps
/// all that stands before and after its path and gains at most a slash.
pub proof fn the_check_appends_at_most_a_slash(config: Config, checked: Config)
    requires
        config.normalised_to(checked),
    ensures
        checked.listen == config.listen,
        checked.namespace == config.namespace,
        checked.sync_interval == config.sync_interval,
        checked.zapp.token_file == config.zapp.token_file,
        checked.zapp.key_dir == config.zapp.key_dir,
        checked.zapp.timeout_secs == config.zapp.timeout_secs,
        parsed_url(config.zapp.url@) matches Ok(url) && {
            ||| url.path.len() > 0 && url.path.last() == '/' && checked.zapp.url@ == url.before
                + url.path + url.after
            ||| !(url.path.len() > 0 && url.path.last() == '/') && checked.zapp.url@ == url.before
                + (url.path + "/"@) + url.after
        },
        parsed_url(checked.zapp.url@) matches Ok(url) && url.path.len() > 0 && url.path.last()
            == '/',
{
    reveal_strlit("/");
    assert("/"@.len() == 1 && "/"@[0] == '/');
    let path = parsed_url(config.zapp.url@)->Ok_0.path;
    assert((path + "/"@).last() == '/');
}

} // verus!
