//! The settings in force, and what is said when new ones cannot be stored.
//!
//! Storing settings is the caller's work: it writes them out and then tells
//! the service how that went. The service takes new settings only once they
//! are stored.

use crate::resources::ResourceService;
use crate::settings::Settings;
use vstd::prelude::*;
use vstd::string::StringExecFns;

verus! {

/// The step at which storing settings failed.
#[derive(Clone, Copy, Debug, PartialEq, Eq, Structural)]
pub enum SaveStage {
    /// The settings could not be written as text.
    Serialize,
    /// The directory of the settings file could not be made.
    CreateDirectory,
    /// The settings file could not be made or opened.
    Open,
    /// The settings file could not be emptied.
    Truncate,
    /// The text could not be written to the settings file.
    Write,
}

/// A failure to store settings: the step, and what the system said of it.
#[derive(Clone, Debug)]
pub struct SaveFailure {
    pub stage: SaveStage,
    pub detail: String,
}

/// The name of the string that tells of a failure at `stage`.
pub open spec fn stage_message_name(stage: SaveStage) -> Seq<char> {
    match stage {
        SaveStage::Serialize => "settings_serialization_error_message_template"@,
        SaveStage::CreateDirectory => "create_settings_directory_error_message_template"@,
        SaveStage::Open => "create_or_open_settings_file_error_message_template"@,
        SaveStage::Truncate => "truncating_settings_file_error_message"@,
        SaveStage::Write => "write_to_settings_file_error_message_template"@,
    }
}

/// The message that tells of a failure at `stage` with the system's words
/// `detail`: the named string of the stage, followed by the detail except
/// where the file could not be emptied; none where the named string is
/// missing.
pub open spec fn save_failure_message(
    resources: &ResourceService,
    stage: SaveStage,
    detail: Seq<char>,
) -> Option<Seq<char>> {
    match resources.resource(stage_message_name(stage)) {
        None => None,
        Some(prefix) => if stage is Truncate {
            Some(prefix)
        } else {
            Some(prefix + detail)
        },
    }
}

/// Holds the settings in force.
pub struct SettingsService {
    settings: Settings,
}

impl SettingsService {
    /// The settings in force.
    pub closed spec fn settings(&self) -> Settings {
        self.settings
    }

    /// A service with `settings` in force.
    pub fn new(settings: Settings) -> (service: SettingsService)
        ensures
            service.settings() == settings,
    {
        SettingsService { settings }
    }

    /// The settings in force.
    pub fn get_settings(&self) -> (settings: &Settings)
        ensures
            *settings == self.settings(),
    {
        &self.settings
    }

    /// Ends an attempt to store `settings`. Where storing went well, that is
    /// where `failure` is `None`, `settings` are in force from now on;
    /// otherwise the settings in force stay and the failure is handed back.
    pub fn save(&mut self, settings: Settings, failure: Option<SaveFailure>) -> (saved: Result<
        (),
        SaveFailure,
    >)
        ensures
            match failure {
                None => saved is Ok && final(self).settings() == settings,
                Some(failure) => saved == Err::<(), SaveFailure>(failure) && final(self).settings()
                    == old(self).settings(),
            },
    {
        match failure {
            None => {
                self.settings = settings;
                Ok(())
            },
            Some(failure) => Err(failure),
        }
    }

    /// The message that tells of `failure`, or `None` where the named string
    /// for it is missing.
    pub fn failure_message(resource_service: &ResourceService, failure: &SaveFailure) -> (message:
        Option<String>)
        ensures
            match message {
                Some(text) => save_failure_message(
                    resource_service,
                    failure.stage,
                    failure.detail@,
                ) == Some(text@),
                None => save_failure_message(resource_service, failure.stage, failure.detail@)
                    is None,
            },
    {
        let prefix = match failure.stage {
            SaveStage::Serialize => resource_service.get_resource_string_by_name(
                "settings_serialization_error_message_template",
            ),
            SaveStage::CreateDirectory => resource_service.get_resource_string_by_name(
                "create_settings_directory_error_message_template",
            ),
            SaveStage::Open => resource_service.get_resource_string_by_name(
                "create_or_open_settings_file_error_message_template",
            ),
            SaveStage::Truncate => resource_service.get_resource_string_by_name(
                "truncating_settings_file_error_message",
            ),
            SaveStage::Write => resource_service.get_resource_string_by_name(
                "write_to_settings_file_error_message_template",
            ),
        };
        match prefix {
            Some(prefix) => match failure.stage {
                SaveStage::Truncate => Some(prefix),
                _ => Some(prefix.concat(failure.detail.as_str())),
            },
            None => None,
        }
    }
}

} // verus!
