use vstd::prelude::*;

use asterisk_manager::ManagerOptions;
use chrono::NaiveDate;
use std::path::PathBuf;

use crate::models::Engineer;
use crate::rotation::{next_duty_index, next_index};

verus! {

#[verifier::external_type_specification]
#[verifier::external_body]
pub struct ExNaiveDate(chrono::NaiveDate);

#[verifier::external_type_specification]
#[verifier::external_body]
pub struct ExPathBuf(std::path::PathBuf);

#[verifier::external_type_specification]
#[verifier::external_body]
pub struct ExManagerOptions(asterisk_manager::ManagerOptions);

/// Calls `chrono::Local::now().date_naive()`: today's date on the local
/// clock, in the machine's time zone. Nothing is stated of the date: it
/// depends on the clock and on the time zone.
#[verifier::external_body]
fn local_today() -> NaiveDate {
    chrono::Local::now().date_naive()
}

/// The operator's phone and dial-plan context from which calls to the
/// engineer on duty are placed.
#[derive(Debug, PartialEq, Eq)]
pub struct AmiOperator {
    pub operator_number: u32,
    pub context: String,
}

impl Clone for AmiOperator {
    fn clone(&self) -> (r: Self)
        ensures
            r == *self,
    {
        AmiOperator { operator_number: self.operator_number, context: self.context.clone() }
    }
}

/// The persistent configuration and state of the application.
#[derive(Debug)]
pub struct AppConfig {
    pub last_rotation: NaiveDate,
    pub current_duty_index: usize,
    pub engineers: Vec<Engineer>,
    pub ami_manager: Option<ManagerOptions>,
    pub ami_operator: Option<AmiOperator>,
}

/// `ManagerOptions::clone`, which its crate derives: the copy holds the same
/// port, host, user name, password and events flag.
pub assume_specification[ <ManagerOptions as Clone>::clone ](options: &ManagerOptions) -> (r:
    ManagerOptions)
    ensures
        r == *options,
;

impl Clone for AppConfig {
    fn clone(&self) -> (r: Self)
        ensures
            r.last_rotation == self.last_rotation,
            r.current_duty_index == self.current_duty_index,
            r.engineers@ == self.engineers@,
            r.ami_manager == self.ami_manager,
            r.ami_operator == self.ami_operator,
    {
        let engineers = self.engineers.clone();
        assert(engineers@ =~= self.engineers@);
        let ami_manager = match &self.ami_manager {
            Some(options) => Some(options.clone()),
            None => None,
        };
        let ami_operator = match &self.ami_operator {
            Some(operator) => Some(operator.clone()),
            None => None,
        };
        AppConfig {
            last_rotation: self.last_rotation,
            current_duty_index: self.current_duty_index,
            engineers,
            ami_manager,
            ami_operator,
        }
    }
}

/// What to do when the user asks to call the engineer on duty.
#[derive(Debug, PartialEq, Eq)]
pub enum CallPlan {
    /// No Asterisk connection was set up: tell the user to configure Asterisk.
    AsteriskNotConfigured,
    /// The operator's phone is not configured: tell the user to set it.
    OperatorNotConfigured,
    /// Dial `phone_number` from the operator's phone.
    Dial { phone_number: String, operator: AmiOperator },
}

impl Default for AppConfig {
    /// A fresh configuration rotated on today's local date.
    fn default() -> (r: Self)
        ensures
            r.current_duty_index == 0,
            r.engineers@.len() == 1,
            r.engineers@[0].is_placeholder(),
            r.current_duty_index < r.engineers@.len(),
            r.ami_manager is None,
            r.ami_operator is None,
    {
        AppConfig::fresh(local_today())
    }
}

impl AppConfig {
    /// A fresh configuration last rotated on `today`: one placeholder engineer
    /// on duty, Asterisk not configured.
    pub fn fresh(today: NaiveDate) -> (r: Self)
        ensures
            r.last_rotation == today,
            r.current_duty_index == 0,
            r.engineers@.len() == 1,
            r.engineers@[0].is_placeholder(),
            r.current_duty_index < r.engineers@.len(),
            r.ami_manager is None,
            r.ami_operator is None,
    {
        AppConfig {
            last_rotation: today,
            current_duty_index: 0,
            engineers: vec![Engineer::default()],
            ami_manager: None,
            ami_operator: None,
        }
    }

    /// The engineer on duty, or `None` when the stored index lies outside the list.
    pub fn current_engineer(&self) -> (r: Option<Engineer>)
        ensures
            r == (if self.current_duty_index < self.engineers@.len() {
                Some(self.engineers@[self.current_duty_index as int])
            } else {
                None
            }),
    {
        if self.current_duty_index < self.engineers.len() {
            Some(self.engineers[self.current_duty_index].clone())
        } else {
            None
        }
    }

    /// Hands duty on to the next engineer, the first one after the last.
    /// With a single engineer nothing changes and `None` comes back; otherwise
    /// the engineer now on duty comes back.
    pub fn rotate_duty(&mut self) -> (r: Option<Engineer>)
        requires
            old(self).engineers@.len() > 0,
            old(self).engineers@.len() > 1 ==> old(self).current_duty_index < usize::MAX,
        ensures
            final(self).engineers@ == old(self).engineers@,
            final(self).last_rotation == old(self).last_rotation,
            final(self).ami_manager == old(self).ami_manager,
            final(self).ami_operator == old(self).ami_operator,
            old(self).engineers@.len() == 1 ==> r is None && final(self).current_duty_index
                == old(self).current_duty_index,
            old(self).engineers@.len() > 1 ==> {
                &&& final(self).current_duty_index == next_index(
                    old(self).current_duty_index as int,
                    old(self).engineers@.len() as int,
                )
                &&& final(self).current_duty_index < final(self).engineers@.len()
                &&& r == Some(final(self).engineers@[final(self).current_duty_index as int])
            },
            old(self).current_duty_index < old(self).engineers@.len()
                ==> final(self).current_duty_index == next_index(
                old(self).current_duty_index as int,
                old(self).engineers@.len() as int,
            ),
    {
        let count = self.engineers.len();
        if count == 1 {
            return None;
        }
        let next = next_duty_index(self.current_duty_index, count);
        self.current_duty_index = next;
        Some(self.engineers[next].clone())
    }

    /// Replaces the Asterisk settings, keeping everything else.
    pub fn set_asterisk_config(
        &mut self,
        ami_operator: Option<AmiOperator>,
        manager_options: Option<ManagerOptions>,
    )
        ensures
            final(self).ami_operator == ami_operator,
            final(self).ami_manager == manager_options,
            final(self).engineers@ == old(self).engineers@,
            final(self).current_duty_index == old(self).current_duty_index,
            final(self).last_rotation == old(self).last_rotation,
    {
        self.ami_manager = manager_options;
        self.ami_operator = ami_operator;
    }

    /// The Asterisk manager settings, when they are configured.
    pub fn ami_manager_options(&self) -> (r: Option<&ManagerOptions>)
        ensures
            r is Some <==> self.ami_manager is Some,
            r matches Some(o) ==> *o == self.ami_manager->0,
    {
        match &self.ami_manager {
            Some(options) => Some(options),
            None => None,
        }
    }

    /// Decides how a call to the engineer on duty goes, given whether an
    /// Asterisk connection has been set up.
    pub fn plan_call(&self, asterisk_connected: bool) -> (r: CallPlan)
        requires
            asterisk_connected ==> self.current_duty_index < self.engineers@.len(),
        ensures
            !asterisk_connected ==> r == CallPlan::AsteriskNotConfigured,
            asterisk_connected && self.ami_operator is None ==> r == CallPlan::OperatorNotConfigured,
            asterisk_connected && self.ami_operator is Some ==> r == (CallPlan::Dial {
                phone_number: self.engineers@[self.current_duty_index as int].phone_number,
                operator: self.ami_operator->0,
            }),
    {
        if !asterisk_connected {
            return CallPlan::AsteriskNotConfigured;
        }
        let phone_number = self.engineers[self.current_duty_index].phone_number.clone();
        match &self.ami_operator {
            Some(operator) => CallPlan::Dial { phone_number, operator: operator.clone() },
            None => CallPlan::OperatorNotConfigured,
        }
    }
}

/// Where the configuration file lives.
#[derive(Debug)]
pub struct ConfigManager {
    path: PathBuf,
}

impl ConfigManager {
    /// The path of the configuration file.
    pub closed spec fn file_path(&self) -> PathBuf {
        self.path
    }

    /// A manager for the configuration file at `path`.
    pub fn from_path(path: PathBuf) -> (r: Self)
        ensures
            r.file_path() == path,
    {
        ConfigManager { path }
    }

    /// The path of the configuration file.
    pub fn path(&self) -> (r: &PathBuf)
        ensures
            *r == self.file_path(),
    {
        &self.path
    }
}

} // verus!
