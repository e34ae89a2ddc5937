//! Parameters of a connect, set by the host one by one.

use vstd::prelude::*;

verus! {

/// async_nats::ServerAddr, a parsed server URL, carried as an opaque value.
#[verifier::external_type_specification]
#[verifier::external_body]
pub struct ExServerAddr(async_nats::ServerAddr);

/// async_nats::ConnectOptions, the client's connect options, carried as an opaque value.
#[verifier::external_type_specification]
#[verifier::external_body]
pub struct ExConnectOptions(async_nats::ConnectOptions);

/// The options that async_nats::ConnectOptions::new makes: the defaults.
pub uninterp spec fn default_options(u: ()) -> async_nats::ConnectOptions;

/// `o` with the client name set to `name`.
pub uninterp spec fn options_named(o: async_nats::ConnectOptions, name: Seq<char>) -> async_nats::ConnectOptions;

/// The address that a text parses to, when it parses.
pub uninterp spec fn server_addr_of(s: Seq<char>) -> async_nats::ServerAddr;

/// Relies on async_nats::ConnectOptions::new, which returns the default
/// options.
pub assume_specification[ async_nats::ConnectOptions::new ]() -> (r: async_nats::ConnectOptions)
    ensures
        r == default_options(()),
;

/// Whether a text reads as a server address: a URL, with `nats://` put in
/// front when it names no scheme, whose scheme the client supports.
pub uninterp spec fn server_addr_parses(s: Seq<char>) -> bool;

/// Relies on `FromStr` for async_nats::ServerAddr: whether the text parses,
/// and to which address, depends on the text alone.
#[verifier::external_body]
fn parse_server_addr(s: &str) -> (r: Option<async_nats::ServerAddr>)
    ensures
        r is Some == server_addr_parses(s@),
        r matches Some(a) ==> a == server_addr_of(s@),
{
    s.parse::<async_nats::ServerAddr>().ok()
}

/// Relies on async_nats::ConnectOptions::name, which sets the client name
/// and nothing else.
#[verifier::external_body]
fn options_with_name(o: async_nats::ConnectOptions, name: &String) -> (r: async_nats::ConnectOptions)
    ensures
        r == options_named(o, name@),
{
    o.name(name)
}

/// The servers to try, in order, and an optional client name.
pub struct AsyncNatsConnetionParams {
    addrs: Vec<async_nats::ServerAddr>,
    name: Option<String>,
}

pub struct ConnectParamsView {
    pub addrs: Seq<async_nats::ServerAddr>,
    pub name: Option<Seq<char>>,
}

impl View for AsyncNatsConnetionParams {
    type V = ConnectParamsView;

    closed spec fn view(&self) -> ConnectParamsView {
        ConnectParamsView {
            addrs: self.addrs@,
            name: match self.name {
                Some(n) => Some(n@),
                None => None,
            },
        }
    }
}

impl AsyncNatsConnetionParams {
    /// No server and no name.
    pub fn new() -> (r: AsyncNatsConnetionParams)
        ensures
            r@.addrs.len() == 0,
            r@.name is None,
    {
        AsyncNatsConnetionParams { addrs: Vec::new(), name: None }
    }

    pub fn set_name(&mut self, name: String)
        ensures
            final(self)@ == (ConnectParamsView { name: Some(name@), ..old(self)@ }),
    {
        self.name = Some(name);
    }

    /// Appends a server address; returns false, and changes nothing, when the
    /// text is not one.
    pub fn add_addr(&mut self, addr: &str) -> (ok: bool)
        ensures
            ok == server_addr_parses(addr@),
            final(self)@.name == old(self)@.name,
            ok ==> final(self)@.addrs == old(self)@.addrs.push(server_addr_of(addr@)),
            !ok ==> final(self)@ == old(self)@,
    {
        match parse_server_addr(addr) {
            Some(a) => {
                self.addrs.push(a);
                true
            },
            None => false,
        }
    }

    pub fn addrs(&self) -> (r: &Vec<async_nats::ServerAddr>)
        ensures
            r@ == self@.addrs,
    {
        &self.addrs
    }

    pub fn name(&self) -> (r: Option<&String>)
        ensures
            r matches Some(n) ==> self@.name == Some(n@),
            r is None <==> self@.name is None,
    {
        match &self.name {
            Some(n) => Some(n),
            None => None,
        }
    }

    /// The client options for these parameters: the client name when one
    /// was set, the defaults otherwise.
    pub fn connect_options(&self) -> (r: async_nats::ConnectOptions)
        ensures
            r == match self@.name {
                Some(n) => options_named(default_options(()), n),
                None => default_options(()),
            },
    {
        let o = async_nats::ConnectOptions::new();
        match &self.name {
            Some(n) => options_with_name(o, n),
            None => o,
        }
    }
}

} // verus!
