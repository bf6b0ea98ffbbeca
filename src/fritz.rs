use vstd::prelude::*;

use crate::digest::{challenge_response, challenge_response_text};
use crate::session::Session;
use crate::text::{metric_names, names_of, owned_all, push_text, string_views};

verus! {

/// Metrics a smart-plug gateway source reports.
pub open spec fn fritz_metrics() -> Seq<Seq<char>> {
    seq!["power"@, "energy"@, "temperature"@]
}

/// Gateway commands that fetch the metrics, in the metrics' order.
pub open spec fn fritz_commands() -> Seq<Seq<char>> {
    seq!["getswitchpower"@, "getswitchenergy"@, "gettemperature"@]
}

/// A session identifier of only zeros (or none at all) means "not logged in".
pub open spec fn is_null_sid(sid: Seq<char>) -> bool {
    forall|i: int| 0 <= i < sid.len() ==> sid[i] == '0'
}

/// A smart plug read through a home gateway that requires a login session.
pub struct FritzSensor {
    pub name: String,
    pub url: String,
    pub user: String,
    pub password: String,
    pub ain: String,
    pub session: Session,
}

impl FritzSensor {
    /// A gateway source; its session is created on first use.
    pub fn new(name: String, url: String, user: String, password: String, ain: String) -> (r: FritzSensor)
        ensures
            r.name == name,
            r.url == url,
            r.user == user,
            r.password == password,
            r.ain == ain,
            r.session@ is None,
    {
        FritzSensor { name, url, user, password, ain, session: Session::new() }
    }

    /// `<name>_power`, `<name>_energy`, `<name>_temperature`.
    pub fn get_names(&self) -> (r: Vec<String>)
        ensures
            string_views(r@) == names_of(self.name@, fritz_metrics()),
    {
        let metrics = owned_all(&["power", "energy", "temperature"]);
        assert(["power", "energy", "temperature"]@.map_values(|s: &str| s@) =~= fritz_metrics());
        metric_names(self.name.as_str(), &metrics)
    }

    /// The commands to fetch the metrics with, in the metrics' order.
    pub fn commands() -> (r: Vec<String>)
        ensures
            string_views(r@) == fritz_commands(),
    {
        let r = owned_all(&["getswitchpower", "getswitchenergy", "gettemperature"]);
        assert(["getswitchpower", "getswitchenergy", "gettemperature"]@.map_values(|s: &str| s@)
            =~= fritz_commands());
        r
    }

    /// Where the login challenge is fetched.
    pub fn challenge_url(&self) -> (r: String)
        ensures
            r@ == self.url@ + "/login_sid.lua"@,
    {
        let mut r = self.url.clone();
        push_text(&mut r, "/login_sid.lua");
        r
    }

    /// The login request answering `challenge`.
    pub fn login_url(&self, challenge: &str) -> (r: String)
        ensures
            r@ == self.url@ + "/login_sid.lua?username="@ + self.user@ + "&response="@
                + challenge_response_text(challenge@, self.password@),
    {
        let mut r = self.url.clone();
        push_text(&mut r, "/login_sid.lua?username=");
        push_text(&mut r, self.user.as_str());
        push_text(&mut r, "&response=");
        let response = challenge_response(challenge, self.password.as_str());
        push_text(&mut r, response.as_str());
        r
    }

    /// The validation probe for a held session identifier.
    pub fn probe_url(&self, sid: &str) -> (r: String)
        ensures
            r@ == self.url@ + "/login_sid.lua?sid="@ + sid@,
    {
        let mut r = self.url.clone();
        push_text(&mut r, "/login_sid.lua?sid=");
        push_text(&mut r, sid);
        r
    }

    /// The request running `command` on this source's plug within session `sid`.
    pub fn value_url(&self, command: &str, sid: &str) -> (r: String)
        ensures
            r@ == self.url@ + "/webservices/homeautoswitch.lua?switchcmd="@ + command@ + "&ain="@
                + self.ain@ + "&sid="@ + sid@,
    {
        let mut r = self.url.clone();
        push_text(&mut r, "/webservices/homeautoswitch.lua?switchcmd=");
        push_text(&mut r, command);
        push_text(&mut r, "&ain=");
        push_text(&mut r, self.ain.as_str());
        push_text(&mut r, "&sid=");
        push_text(&mut r, sid);
        r
    }
}

/// Whether a session identifier is all zeros.
pub fn null_sid(sid: &str) -> (r: bool)
    ensures
        r == is_null_sid(sid@),
{
    let n = sid.unicode_len();
    let mut i: usize = 0;
    while i < n
        invariant
            n == sid@.len(),
            i <= n,
            forall|j: int| 0 <= j < i ==> sid@[j] == '0',
        decreases n - i,
    {
        if sid.get_char(i) != '0' {
            return false;
        }
        i = i + 1;
    }
    true
}

/// Whether a probe that sent `sent` and got back `returned` confirms the
/// session: the gateway echoes a still valid identifier, and zeros otherwise.
pub fn probe_confirms(sent: &str, returned: &str) -> (r: bool)
    ensures
        r == (returned@ == sent@ && !is_null_sid(returned@)),
{
    let a = sent.to_owned();
    let b = returned.to_owned();
    a == b && !null_sid(returned)
}

} // verus!
