//! Assembling an attempt: the optional settings with their defaults, and the
//! entry points that begin one.

use vstd::prelude::*;
use crate::lock::{generate_lock_file_path, is_lock_path};
use crate::orchestrator::{initial, pending, Action, ConfigView, Orchestrator, RelaunchConfig};
use crate::text::texts;

verus! {

/// The configuration that an attempt runs with when the optional settings are
/// `features` and `origin_check`: no features and a checked origin where
/// nothing was chosen.
pub open spec fn resolved_config(
    package_id: Seq<char>,
    current_version: Seq<char>,
    features: Option<Seq<Seq<char>>>,
    origin_check: Option<bool>,
) -> ConfigView {
    ConfigView {
        package_id,
        current_version,
        features: match features {
            Some(names) => names,
            None => Seq::empty(),
        },
        origin_check_enabled: match origin_check {
            Some(enabled) => enabled,
            None => true,
        },
    }
}

/// Begins an attempt to update `package_id`, of which `current_version` is
/// running. Features default to none. A fresh random lock path is chosen.
///
/// Returns the attempt in its first state and the first action to perform.
/// Nothing has happened yet: the caller performs each action, reports what
/// came of it with [`Orchestrator::step`], and goes on until the action is
/// [`Action::Return`] or [`Action::Exit`].
#[allow(non_snake_case)]
pub fn relaunch_program(
    package_id: &str,
    current_version: &str,
    active_features: Option<Vec<String>>,
    check_if_executed_from_PATH: bool,
) -> (begun: (Orchestrator, Action))
    ensures
        is_lock_path(begun.0@.lock_path),
        begun.0@ == initial(
            resolved_config(
                package_id@,
                current_version@,
                match active_features {
                    Some(names) => Some(texts(names@)),
                    None => None,
                },
                Some(check_if_executed_from_PATH),
            ),
            begun.0@.lock_path,
        ),
        begun.1@ == pending(begun.0@),
{
    let features = match active_features {
        Some(names) => names,
        None => Vec::new(),
    };
    let config = RelaunchConfig {
        package_id: package_id.to_owned(),
        current_version: current_version.to_owned(),
        features,
        origin_check_enabled: check_if_executed_from_PATH,
    };
    assert(config@.features =~= match active_features {
        Some(names) => texts(names@),
        None => Seq::empty(),
    });
    Orchestrator::start(config, generate_lock_file_path())
}

/// Collects the optional settings of an attempt before it begins: the
/// features to install with, the confirmation policy, and whether the origin
/// of the program is checked.
#[allow(non_snake_case)]
pub struct RSpawn<F> where F: FnMut(&str) -> bool + 'static {
    active_features: Option<Vec<String>>,
    user_confirm: Option<F>,
    check_if_executed_from_PATH: Option<bool>,
}

/// The mathematical content of an [`RSpawn`].
pub struct RSpawnView<F> {
    /// The features chosen, if any were.
    pub features: Option<Seq<Seq<char>>>,
    /// The confirmation policy chosen, if one was.
    pub confirmation: Option<F>,
    /// Whether the origin is checked, where that was chosen.
    pub origin_check: Option<bool>,
}

impl<F> View for RSpawn<F> where F: FnMut(&str) -> bool + 'static {
    type V = RSpawnView<F>;

    closed spec fn view(&self) -> RSpawnView<F> {
        RSpawnView {
            features: match self.active_features {
                Some(names) => Some(texts(names@)),
                None => None,
            },
            confirmation: self.user_confirm,
            origin_check: self.check_if_executed_from_PATH,
        }
    }
}

impl<F> RSpawn<F> where F: FnMut(&str) -> bool + 'static {
    /// A builder with nothing chosen but the origin check, which is on.
    pub fn new() -> (builder: Self)
        ensures
            builder@.features is None,
            builder@.confirmation is None,
            builder@.origin_check == Some(true),
    {
        RSpawn { active_features: None, user_confirm: None, check_if_executed_from_PATH: Some(true) }
    }

    /// Chooses the features to install the new version with.
    pub fn active_features(self, active_features: Vec<String>) -> (builder: Self)
        ensures
            builder@.features == Some(texts(active_features@)),
            builder@.confirmation == self@.confirmation,
            builder@.origin_check == self@.origin_check,
    {
        RSpawn {
            active_features: Some(active_features),
            user_confirm: self.user_confirm,
            check_if_executed_from_PATH: self.check_if_executed_from_PATH,
        }
    }

    /// Chooses the policy that decides whether an offered version is
    /// installed. It replaces the default, which asks on the terminal.
    pub fn user_confirm(self, user_confirm: F) -> (builder: Self)
        ensures
            builder@.features == self@.features,
            builder@.confirmation == Some(user_confirm),
            builder@.origin_check == self@.origin_check,
    {
        RSpawn {
            active_features: self.active_features,
            user_confirm: Some(user_confirm),
            check_if_executed_from_PATH: self.check_if_executed_from_PATH,
        }
    }

    /// Chooses whether the program must have been started through the search
    /// path for an update to be looked for.
    #[allow(non_snake_case)]
    pub fn check_if_executed_from_PATH(self, check: bool) -> (builder: Self)
        ensures
            builder@.features == self@.features,
            builder@.confirmation == self@.confirmation,
            builder@.origin_check == Some(check),
    {
        RSpawn {
            active_features: self.active_features,
            user_confirm: self.user_confirm,
            check_if_executed_from_PATH: Some(check),
        }
    }

    /// Begins an attempt with the settings collected, as [`relaunch_program`]
    /// does, and hands out the confirmation policy for the caller to ask when
    /// the attempt wants a decision.
    pub fn relaunch_program(self, package_id: &str, current_version: &str) -> (begun: (
        Orchestrator,
        Action,
        Option<F>,
    ))
        ensures
            is_lock_path(begun.0@.lock_path),
            begun.0@ == initial(
                resolved_config(
                    package_id@,
                    current_version@,
                    self@.features,
                    self@.origin_check,
                ),
                begun.0@.lock_path,
            ),
            begun.1@ == pending(begun.0@),
            begun.2 == self@.confirmation,
    {
        let RSpawn { active_features, user_confirm, check_if_executed_from_PATH } = self;
        let check = match check_if_executed_from_PATH {
            Some(check) => check,
            None => true,
        };
        let (attempt, first) = relaunch_program(package_id, current_version, active_features, check);
        (attempt, first, user_confirm)
    }
}

} // verus!
