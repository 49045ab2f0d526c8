use std::sync::Arc;

use vstd::prelude::*;
use vstd::string::StringExecFns;

use crate::config::types::Config;
use crate::pastebins::pastebin_com::{self, PastebinCom};
use crate::pastebins::{PasteBins, Service};

verus! {

/// The text without its leading and trailing whitespace, as `str::trim` gives it.
pub uninterp spec fn trimmed(s: Seq<char>) -> Seq<char>;

/// Relies on `str::trim`: the result depends on the text alone, and an empty
/// text stays empty.
#[verifier::external_body]
fn trim(s: &str) -> (r: &str)
    ensures
        r@ == trimmed(s@),
        s@.len() == 0 ==> r@.len() == 0,
{
    s.trim()
}

/// Why an enabled backend was left out.
#[derive(Debug, Clone, Copy, PartialEq, Eq, Structural)]
pub enum KeyProblem {
    NotSet,
    Empty,
}

/// A backend that is enabled but could not be registered, named by its
/// display name and domain.
#[derive(Debug)]
pub struct RegistrationWarning {
    pub display_name: String,
    pub domain: String,
    pub problem: KeyProblem,
}

pub open spec fn key_problem_spec(key: Option<Seq<char>>, trimmed_key: Seq<char>) -> Option<KeyProblem> {
    match key {
        None => Some(KeyProblem::NotSet),
        Some(_) => if trimmed_key.len() == 0 {
            Some(KeyProblem::Empty)
        } else {
            None
        },
    }
}

/// A key can be used when it is set and is not blank.
pub open spec fn usable_key(key: Option<String>) -> bool {
    match key {
        Some(k) => trimmed(k@).len() > 0,
        None => false,
    }
}

pub open spec fn warning_message(display_name: Seq<char>, domain: Seq<char>, problem: KeyProblem) -> Seq<char> {
    "failed to register ("@ + display_name + " / "@ + domain + ") because key is "@ + match problem {
        KeyProblem::NotSet => "not set"@,
        KeyProblem::Empty => "empty"@,
    }
}

/// The registered backend is pastebin.com, holding `key`.
pub open spec fn is_pastebin_com_with_key(s: Arc<Service>, key: Seq<char>) -> bool {
    match *s {
        Service::PastebinCom(p) => p.spec_api_key() == key,
    }
}

/// What is wrong with a backend's key, given the key and, when it is set,
/// the key without surrounding whitespace.
pub fn key_problem(key: &Option<String>, trimmed_key: &str) -> (r: Option<KeyProblem>)
    ensures
        r == key_problem_spec(
            match key {
                Some(k) => Some(k@),
                None => None,
            },
            trimmed_key@,
        ),
{
    match key {
        None => Some(KeyProblem::NotSet),
        Some(_) => if trimmed_key.is_empty() {
            Some(KeyProblem::Empty)
        } else {
            None
        },
    }
}

impl RegistrationWarning {
    /// "failed to register (<name> / <domain>) because key is <not set|empty>"
    pub fn message(&self) -> (r: String)
        ensures
            r@ == warning_message(self.display_name@, self.domain@, self.problem),
    {
        let mut r = String::from_str("failed to register (");
        r.append(self.display_name.as_str());
        r.append(" / ");
        r.append(self.domain.as_str());
        r.append(") because key is ");
        match self.problem {
            KeyProblem::NotSet => r.append("not set"),
            KeyProblem::Empty => r.append("empty"),
        }
        r
    }
}

impl PasteBins {
    /// Registers every backend that `cfg` enables and gives a usable key.
    /// An enabled backend without one is left out, with one warning; a
    /// disabled one is passed over in silence.
    pub fn register_from_config(&mut self, cfg: &Config) -> (warnings: Vec<RegistrationWarning>)
        requires
            old(self).wf(),
        ensures
            final(self).wf(),
            !cfg.pastebin_com.enable ==> final(self)@ == old(self)@ && warnings@.len() == 0,
            cfg.pastebin_com.enable && cfg.pastebin_com.key is Some && cfg.pastebin_com.key->0@.len()
                == 0 ==> !usable_key(cfg.pastebin_com.key),
            cfg.pastebin_com.enable && usable_key(cfg.pastebin_com.key) ==> {
                &&& warnings@.len() == 0
                &&& final(self)@ == old(self)@.insert(
                    pastebin_com::ID@,
                    final(self)@[pastebin_com::ID@],
                )
                &&& is_pastebin_com_with_key(
                    final(self)@[pastebin_com::ID@],
                    cfg.pastebin_com.key->0@,
                )
            },
            cfg.pastebin_com.enable && !usable_key(cfg.pastebin_com.key) ==> {
                &&& final(self)@ == old(self)@
                &&& warnings@.len() == 1
                &&& warnings@[0].display_name@ == pastebin_com::DISPLAY_NAME@
                &&& warnings@[0].domain@ == pastebin_com::DOMAIN@
                &&& warnings@[0].problem == if cfg.pastebin_com.key is None {
                    KeyProblem::NotSet
                } else {
                    KeyProblem::Empty
                }
            },
    {
        let mut warnings: Vec<RegistrationWarning> = Vec::new();
        let section = &cfg.pastebin_com;
        if section.enable {
            let trimmed_key = match &section.key {
                Some(k) => trim(k.as_str()),
                None => "",
            };
            match key_problem(&section.key, trimmed_key) {
                None => {
                    let key = section.key.as_ref().unwrap();
                    let service = Arc::new(Service::PastebinCom(PastebinCom::new(key.as_str())));
                    self.register(service);
                },
                Some(problem) => {
                    warnings.push(
                        RegistrationWarning {
                            display_name: String::from_str(pastebin_com::DISPLAY_NAME),
                            domain: String::from_str(pastebin_com::DOMAIN),
                            problem,
                        },
                    );
                },
            }
        }
        warnings
    }
}

} // verus!
