//! Translation of the user's server settings into environment variables.
use vstd::prelude::*;

verus! {

pub const QUERY_EXTRA_VAR: &'static str = "GITHUB_GAS_QUERY_EXTRA";
pub const REPOSITORIES_VAR: &'static str = "GITHUB_GAS_REPOSITORIES";
pub const FROM_DATE_VAR: &'static str = "GITHUB_GAS_FROM_DATE";
pub const TO_DATE_VAR: &'static str = "GITHUB_GAS_TO_DATE";
pub const AUTHOR_VAR: &'static str = "GITHUB_GAS_AUTHOR";
pub const AUTH_TYPE_VAR: &'static str = "GITHUB_GAS_AUTH_TYPE";

/// The settings block of the server, each field optional.
pub struct ServerSettings {
    pub repositories: Option<Vec<String>>,
    pub query_extra: Option<String>,
    pub from_date: Option<String>,
    pub author: Option<String>,
    pub auth_type: Option<String>,
    pub to_date: Option<String>,
}

/// Mathematical view of `ServerSettings`.
pub ghost struct SettingsModel {
    pub repositories: Option<Seq<Seq<char>>>,
    pub query_extra: Option<Seq<char>>,
    pub from_date: Option<Seq<char>>,
    pub author: Option<Seq<char>>,
    pub auth_type: Option<Seq<char>>,
    pub to_date: Option<Seq<char>>,
}

pub open spec fn strings_view(v: Seq<String>) -> Seq<Seq<char>> {
    v.map_values(|s: String| s@)
}

pub open spec fn opt_string_view(o: Option<String>) -> Option<Seq<char>> {
    match o {
        Some(s) => Some(s@),
        None => None,
    }
}

impl View for ServerSettings {
    type V = SettingsModel;

    open spec fn view(&self) -> SettingsModel {
        SettingsModel {
            repositories: match self.repositories {
                Some(v) => Some(strings_view(v@)),
                None => None,
            },
            query_extra: opt_string_view(self.query_extra),
            from_date: opt_string_view(self.from_date),
            author: opt_string_view(self.author),
            auth_type: opt_string_view(self.auth_type),
            to_date: opt_string_view(self.to_date),
        }
    }
}

/// The items of `s` separated by `sep`.
pub open spec fn join_spec(s: Seq<Seq<char>>, sep: Seq<char>) -> Seq<char>
    decreases s.len(),
{
    if s.len() == 0 {
        Seq::empty()
    } else if s.len() == 1 {
        s[0]
    } else {
        join_spec(s.drop_last(), sep) + sep + s.last()
    }
}

/// The view of a list of (name, value) pairs.
pub open spec fn pairs_view(v: Seq<(String, String)>) -> Seq<(Seq<char>, Seq<char>)> {
    v.map_values(|p: (String, String)| (p.0@, p.1@))
}

/// One pair `(name, value)` where the value is present, none otherwise.
pub open spec fn pair_if(name: Seq<char>, value: Option<Seq<char>>) -> Seq<(Seq<char>, Seq<char>)> {
    match value {
        Some(v) => seq![(name, v)],
        None => seq![],
    }
}

/// The environment that a settings block stands for, in a fixed order.
pub open spec fn env_spec(s: SettingsModel) -> Seq<(Seq<char>, Seq<char>)> {
    pair_if(QUERY_EXTRA_VAR@, s.query_extra)
        + pair_if(REPOSITORIES_VAR@, match s.repositories {
            Some(r) => Some(join_spec(r, ","@)),
            None => None,
        })
        + pair_if(FROM_DATE_VAR@, s.from_date)
        + pair_if(TO_DATE_VAR@, s.to_date)
        + pair_if(AUTHOR_VAR@, s.author)
        + pair_if(AUTH_TYPE_VAR@, s.auth_type)
}

/// Joins the repository identifiers with commas.
pub fn join_repositories(items: &Vec<String>) -> (r: String)
    ensures
        r@ == join_spec(strings_view(items@), ","@),
{
    let mut out = String::new();
    let mut i: usize = 0;
    while i < items.len()
        invariant
            i <= items.len(),
            out@ == join_spec(strings_view(items@).take(i as int), ","@),
        decreases items.len() - i,
    {
        let ghost sv = strings_view(items@);
        assert(sv.take(i as int + 1).drop_last() =~= sv.take(i as int));
        if i > 0 {
            out.append(",");
        }
        out.append(items[i].as_str());
        i = i + 1;
        proof {
            if i == 1 {
                assert(sv.take(1) =~= seq![sv[0]]);
                assert(out@ =~= sv[0]);
            }
        }
    }
    assert(strings_view(items@).take(items.len() as int) =~= strings_view(items@));
    out
}

fn push_if(env: &mut Vec<(String, String)>, name: &str, value: Option<String>)
    ensures
        pairs_view(final(env)@) == pairs_view(old(env)@) + pair_if(name@, opt_string_view(value)),
{
    match value {
        Some(v) => {
            env.push((String::from_str(name), v));
            assert(pairs_view(env@) =~= pairs_view(old(env)@) + pair_if(name@, opt_string_view(Some(v))));
        },
        None => {
            assert(pairs_view(env@) =~= pairs_view(old(env)@) + pair_if(name@, opt_string_view(value)));
        },
    }
}

/// The environment variables for a settings block: one pair for each field that
/// is present, the repositories joined with commas.
pub fn env_vars(settings: ServerSettings) -> (r: Vec<(String, String)>)
    ensures
        pairs_view(r@) == env_spec(settings@),
{
    let ghost m = settings@;
    let mut env: Vec<(String, String)> = Vec::new();
    push_if(&mut env, QUERY_EXTRA_VAR, settings.query_extra);
    let repos = match settings.repositories {
        Some(r) => Some(join_repositories(&r)),
        None => None,
    };
    push_if(&mut env, REPOSITORIES_VAR, repos);
    push_if(&mut env, FROM_DATE_VAR, settings.from_date);
    push_if(&mut env, TO_DATE_VAR, settings.to_date);
    push_if(&mut env, AUTHOR_VAR, settings.author);
    push_if(&mut env, AUTH_TYPE_VAR, settings.auth_type);
    assert(pairs_view(env@) =~= env_spec(m));
    env
}

} // verus!
