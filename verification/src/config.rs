//! The gateway's configuration values, immutable after load.
use vstd::prelude::*;
use vstd::string::StringExecFns;

use crate::site::SiteList;
use crate::text::spec_contains_char;
use crate::text::spec_dec_str;
use crate::text::spec_ends_with;
use crate::text::str_contains_char;
use crate::text::str_ends_with;
use crate::text::u16_dec_str;

verus! {

/// Whether a file name is acceptable as a configuration file: it must name
/// a YAML document by its ending.
pub fn config_file_name_acceptable(name: &str) -> (r: bool)
    ensures
        r == (spec_ends_with(name@, ".yaml"@) || spec_ends_with(name@, ".yml"@)),
{
    str_ends_with(name, ".yaml") || str_ends_with(name, ".yml")
}

/// Settings shared by every command.
#[derive(Debug)]
pub struct CommonConfig {
    /// The logging filter configuration, if one was given.
    pub logging: Option<String>,
    /// The template directory, if one was given.
    pub template_dir: Option<String>,
}

impl Default for CommonConfig {
    /// A configuration with nothing set.
    fn default() -> (r: CommonConfig)
        ensures
            r.logging is None,
            r.template_dir is None,
    {
        CommonConfig { logging: None, template_dir: None }
    }
}

/// The directory templates are read from when none is configured.
pub fn default_template_dir() -> (r: &'static str)
    ensures
        r@ == "templates"@,
{
    "templates"
}

/// The template directory to use: the configured one, or the default.
pub fn resolve_template_dir(cfg: &CommonConfig) -> (d: String)
    ensures
        match cfg.template_dir {
            Some(p) => d@ == p@,
            None => d@ == "templates"@,
        },
{
    match &cfg.template_dir {
        Some(p) => p.clone(),
        None => String::from_str(default_template_dir()),
    }
}

/// The settings of the serving command.
#[derive(Debug)]
pub struct ServeConfig {
    pub common: CommonConfig,
    /// The port to listen on.
    pub port: u16,
    /// The interface addresses to bind, as address texts.
    pub interface_addresses: Vec<String>,
    /// The base address of the authorization server.
    pub authorization_server_url: String,
    /// The OAuth client id of this gateway.
    pub client_id: String,
    /// The sites served, with their visibility rules.
    pub site_list: SiteList,
    /// Whether development conveniences are switched on.
    pub dev_mode_enabled: bool,
}

/// The character sequences of a list of strings.
pub open spec fn string_views(v: Seq<String>) -> Seq<Seq<char>> {
    v.map_values(|s: String| s@)
}

/// Keeps the address texts without a colon: an IPv6 literal holds one, so
/// these are the IPv4-style addresses.
pub open spec fn no_colon_pred() -> spec_fn(Seq<char>) -> bool {
    |a: Seq<char>| !spec_contains_char(a, ':')
}

/// Appends a port to an address text.
pub open spec fn join_port_fn(port: int) -> spec_fn(Seq<char>) -> Seq<char> {
    |a: Seq<char>| a + ":"@ + spec_dec_str(port)
}

impl ServeConfig {
    /// The socket addresses the server binds: every configured interface
    /// address that is not an IPv6 literal, joined with the configured
    /// port, in their configured order.
    pub fn bind_addresses(&self) -> (v: Vec<String>)
        ensures
            string_views(v@) == string_views(self.interface_addresses@).filter(
                no_colon_pred(),
            ).map_values(join_port_fn(self.port as int)),
    {
        let addrs = &self.interface_addresses;
        let n = addrs.len();
        let mut v: Vec<String> = Vec::new();
        let ghost f = join_port_fn(self.port as int);
        proof {
            reveal(Seq::filter);
            assert(string_views(addrs@).take(0).filter(no_colon_pred()) =~= Seq::<
                Seq<char>,
            >::empty());
            assert(string_views(addrs@).take(0).filter(no_colon_pred()).map_values(f) =~= Seq::<
                Seq<char>,
            >::empty());
            assert(string_views(v@) =~= Seq::<Seq<char>>::empty());
        }
        let mut i: usize = 0;
        while i < n
            invariant
                i <= n,
                n == addrs@.len(),
                addrs@ == self.interface_addresses@,
                f == join_port_fn(self.port as int),
                string_views(v@) == string_views(addrs@).take(i as int).filter(
                    no_colon_pred(),
                ).map_values(f),
            decreases n - i,
        {
            let ghost prev = v@;
            let a = &addrs[i];
            let keep = !str_contains_char(a.as_str(), ':');
            if keep {
                let mut b = a.clone();
                b.append(":");
                let num = u16_dec_str(self.port);
                b.append(num.as_str());
                assert(b@ == f(a@));
                v.push(b);
            }
            proof {
                reveal(Seq::filter);
                let views = string_views(addrs@);
                let t1 = views.take(i + 1);
                assert(t1 =~= string_views(addrs@.take(i + 1)));
                assert(t1.drop_last() =~= views.take(i as int));
                assert(t1.last() == addrs@[i as int]@);
                let kept = views.take(i as int).filter(no_colon_pred());
                if keep {
                    assert(t1.filter(no_colon_pred()) =~= kept.push(addrs@[i as int]@));
                    assert(kept.push(addrs@[i as int]@).map_values(f) =~= kept.map_values(f).push(
                        f(addrs@[i as int]@),
                    ));
                    assert(string_views(v@) =~= string_views(prev).push(v@[v@.len() - 1]@));
                } else {
                    assert(t1.filter(no_colon_pred()) =~= kept);
                }
            }
            i = i + 1;
        }
        proof {
            assert(string_views(addrs@).take(n as int) =~= string_views(addrs@));
        }
        v
    }
}

/// The settings of the template-initialisation command.
#[derive(Debug)]
pub struct InitTemplatesConfig {
    pub common: CommonConfig,
}

/// Which command the process runs, with that command's settings.
#[derive(Debug)]
pub enum AppConfig {
    Serve(ServeConfig),
    InitTemplates(InitTemplatesConfig),
}

impl AppConfig {
    /// The settings shared by every command.
    pub fn common(&self) -> (r: &CommonConfig)
        ensures
            match self {
                AppConfig::Serve(s) => *r == s.common,
                AppConfig::InitTemplates(i) => *r == i.common,
            },
    {
        match self {
            AppConfig::Serve(s) => &s.common,
            AppConfig::InitTemplates(i) => &i.common,
        }
    }
}

} // verus!
