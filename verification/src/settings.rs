//! Where the settings of the player lie, and what is taken from there.

use vstd::prelude::*;

use crate::domain::AudioSettings;

verus! {

pub const CONFIG_DIR_ENV: &'static str = "NOCTURNE_CONFIG_DIR";

pub const AUDIO_SETTINGS_FILE_NAME: &'static str = "audio-settings.json";

/// A place under which the settings can lie, named by what it is taken from.
#[derive(Debug, Clone, Copy, PartialEq, Eq, Structural)]
pub enum ConfigBase {
    /// The directory that the user has named for the player.
    Named,
    /// The roaming application data of the user.
    AppData,
    /// The configuration directory of the user's session.
    XdgConfigHome,
    /// The home of the user.
    Home,
    /// The directory in which the player was started.
    CurrentDir,
}

/// Which of the places there are.
#[derive(Debug, Clone, Copy, PartialEq, Eq, Structural)]
pub struct KnownPlaces {
    pub named: bool,
    pub windows: bool,
    pub app_data: bool,
    pub xdg_config_home: bool,
    pub home: bool,
}

/// The place that is taken: the one that the user named, else that of the
/// platform, else the current directory.
pub open spec fn chosen_base(known: KnownPlaces) -> ConfigBase {
    if known.named {
        ConfigBase::Named
    } else if known.windows {
        if known.app_data {
            ConfigBase::AppData
        } else {
            ConfigBase::CurrentDir
        }
    } else if known.xdg_config_home {
        ConfigBase::XdgConfigHome
    } else if known.home {
        ConfigBase::Home
    } else {
        ConfigBase::CurrentDir
    }
}

/// The directories below the place that is taken.
pub open spec fn config_parts(known: KnownPlaces) -> Seq<Seq<char>> {
    match chosen_base(known) {
        ConfigBase::Named => seq![],
        ConfigBase::AppData => seq!["Nocturne"@],
        ConfigBase::XdgConfigHome => seq!["nocturne"@],
        ConfigBase::Home => seq![".config"@, "nocturne"@],
        ConfigBase::CurrentDir => if known.windows {
            seq![".nocturne"@, "Nocturne"@]
        } else {
            seq![".nocturne"@]
        },
    }
}

/// Where a settings file lies: the place, and the parts of the path below it.
pub fn settings_location(known: KnownPlaces, file_name: &str) -> (location: (
    ConfigBase,
    Vec<String>,
))
    ensures
        location.0 == chosen_base(known),
        crate::search::text_views(location.1@) == config_parts(known).push(file_name@),
{
    let base = if known.named {
        ConfigBase::Named
    } else if known.windows {
        if known.app_data {
            ConfigBase::AppData
        } else {
            ConfigBase::CurrentDir
        }
    } else if known.xdg_config_home {
        ConfigBase::XdgConfigHome
    } else if known.home {
        ConfigBase::Home
    } else {
        ConfigBase::CurrentDir
    };
    let mut parts: Vec<String> = Vec::new();
    match base {
        ConfigBase::Named => {},
        ConfigBase::AppData => {
            parts.push("Nocturne".to_owned());
        },
        ConfigBase::XdgConfigHome => {
            parts.push("nocturne".to_owned());
        },
        ConfigBase::Home => {
            parts.push(".config".to_owned());
            parts.push("nocturne".to_owned());
        },
        ConfigBase::CurrentDir => {
            parts.push(".nocturne".to_owned());
            if known.windows {
                parts.push("Nocturne".to_owned());
            }
        },
    }
    assert(crate::search::text_views(parts@) =~= config_parts(known));
    parts.push(file_name.to_owned());
    assert(crate::search::text_views(parts@) =~= config_parts(known).push(file_name@));
    (base, parts)
}

/// What was found of the audio settings.
#[derive(Debug, Clone, Copy, PartialEq, Eq, Structural)]
pub enum StoredAudioSettings {
    Missing,
    Found(AudioSettings),
}

/// The settings that are taken from what was found.
pub open spec fn loaded_settings(stored: StoredAudioSettings) -> AudioSettings {
    match stored {
        StoredAudioSettings::Found(found) => found.spec_clamped(),
        StoredAudioSettings::Missing => AudioSettings {
            volume_percent: AudioSettings::DEFAULT_VOLUME_PERCENT,
        },
    }
}

/// Where the audio settings are stored.
#[derive(Debug)]
pub struct LocalAudioSettingsStore {
    path: String,
}

impl LocalAudioSettingsStore {
    /// The path of the settings.
    pub closed spec fn spec_path(&self) -> Seq<char> {
        self.path@
    }

    pub fn from_path(path: String) -> (store: Self)
        ensures
            store.spec_path() == path@,
    {
        LocalAudioSettingsStore { path }
    }

    pub fn path(&self) -> (path: &str)
        ensures
            path@ == self.spec_path(),
    {
        self.path.as_str()
    }

    /// The settings that are taken from what was found: those of the file, brought
    /// into range, or the first ones where there is no file.
    pub fn load(&self, stored: StoredAudioSettings) -> (settings: AudioSettings)
        ensures
            settings == loaded_settings(stored),
    {
        match stored {
            StoredAudioSettings::Found(found) => found.clamped(),
            StoredAudioSettings::Missing => AudioSettings::default(),
        }
    }

    /// The settings that are written for the given ones.
    pub fn save(&self, settings: &AudioSettings) -> (written: AudioSettings)
        ensures
            written == settings.spec_clamped(),
    {
        settings.clamped()
    }
}

/// What was saved is loaded again, brought into range.
pub proof fn saved_settings_are_loaded(settings: AudioSettings)
    ensures
        settings.spec_clamped().spec_clamped() == settings.spec_clamped(),
        settings.volume_percent <= 100 ==> settings.spec_clamped() == settings,
{
}

} // verus!
