use vstd::prelude::*;

verus! {

/// The closed set of icon roles the tray menu uses.
#[derive(Clone, Copy, Debug, PartialEq, Eq, Structural)]
pub enum IconRole {
    Tray,
    Play,
    Stop,
    Power,
    StatusRed,
    StatusGreen,
    Cog,
    Cpu,
    FileClock,
    Trash,
    Download,
    HardDrive,
}

/// A reference to one icon asset: its role, in the dark or the light variant.
/// The host turns it into a loaded image.
#[derive(Clone, Copy, Debug, PartialEq, Eq, Structural)]
pub struct IconRef {
    pub dark: bool,
    pub role: IconRole,
}

/// The icon set for one color theme.
#[derive(Clone, Copy, Debug, PartialEq, Eq, Structural)]
pub struct ThemeIcons {
    pub tray: IconRef,
    pub play: IconRef,
    pub stop: IconRef,
    pub power: IconRef,
    pub red: IconRef,
    pub green: IconRef,
    pub cog: IconRef,
    pub cpu: IconRef,
    pub file_clock: IconRef,
    pub trash: IconRef,
    pub download: IconRef,
    pub hard_drive: IconRef,
}

/// The icon set of a theme: every role in that theme's variant.
pub open spec fn theme_icons(is_dark: bool) -> ThemeIcons {
    ThemeIcons {
        tray: IconRef { dark: is_dark, role: IconRole::Tray },
        play: IconRef { dark: is_dark, role: IconRole::Play },
        stop: IconRef { dark: is_dark, role: IconRole::Stop },
        power: IconRef { dark: is_dark, role: IconRole::Power },
        red: IconRef { dark: is_dark, role: IconRole::StatusRed },
        green: IconRef { dark: is_dark, role: IconRole::StatusGreen },
        cog: IconRef { dark: is_dark, role: IconRole::Cog },
        cpu: IconRef { dark: is_dark, role: IconRole::Cpu },
        file_clock: IconRef { dark: is_dark, role: IconRole::FileClock },
        trash: IconRef { dark: is_dark, role: IconRole::Trash },
        download: IconRef { dark: is_dark, role: IconRole::Download },
        hard_drive: IconRef { dark: is_dark, role: IconRole::HardDrive },
    }
}

fn icon_set(is_dark: bool) -> (r: ThemeIcons)
    ensures
        r == theme_icons(is_dark),
{
    ThemeIcons {
        tray: IconRef { dark: is_dark, role: IconRole::Tray },
        play: IconRef { dark: is_dark, role: IconRole::Play },
        stop: IconRef { dark: is_dark, role: IconRole::Stop },
        power: IconRef { dark: is_dark, role: IconRole::Power },
        red: IconRef { dark: is_dark, role: IconRole::StatusRed },
        green: IconRef { dark: is_dark, role: IconRole::StatusGreen },
        cog: IconRef { dark: is_dark, role: IconRole::Cog },
        cpu: IconRef { dark: is_dark, role: IconRole::Cpu },
        file_clock: IconRef { dark: is_dark, role: IconRole::FileClock },
        trash: IconRef { dark: is_dark, role: IconRole::Trash },
        download: IconRef { dark: is_dark, role: IconRole::Download },
        hard_drive: IconRef { dark: is_dark, role: IconRole::HardDrive },
    }
}

impl ThemeIcons {
    /// The icon set of the dark or the light theme.
    pub fn load(is_dark: bool) -> (r: ThemeIcons)
        ensures
            r == theme_icons(is_dark),
    {
        if is_dark {
            Self::load_dark()
        } else {
            Self::load_light()
        }
    }

    fn load_dark() -> (r: ThemeIcons)
        ensures
            r == theme_icons(true),
    {
        icon_set(true)
    }

    fn load_light() -> (r: ThemeIcons)
        ensures
            r == theme_icons(false),
    {
        icon_set(false)
    }

    /// Green while the server runs, red while it is stopped.
    pub open spec fn status_icon_spec(&self, is_running: bool) -> IconRef {
        if is_running {
            self.green
        } else {
            self.red
        }
    }

    /// The server-status icon: green while running, red otherwise.
    pub fn status_icon(&self, is_running: bool) -> (r: IconRef)
        ensures
            r == self.status_icon_spec(is_running),
    {
        if is_running {
            self.green
        } else {
            self.red
        }
    }
}

} // verus!
