//! The settings record that parameterises a flashing run.

use vstd::prelude::*;
use vstd::string::*;

verus! {

/// Name of the settings document, which lives beside the running program.
pub const CONFIG_FILENAME: &'static str = "esp-gui.config.json";

/// Descriptive metadata shipped inside the settings record.
#[derive(Debug)]
pub struct About {
    pub name: String,
    pub version: String,
    pub author: String,
    pub date_of_release: String,
}

/// Mathematical value of an [`About`].
pub struct AboutView {
    pub name: Seq<char>,
    pub version: Seq<char>,
    pub author: Seq<char>,
    pub date_of_release: Seq<char>,
}

impl View for About {
    type V = AboutView;

    open spec fn view(&self) -> AboutView {
        AboutView {
            name: self.name@,
            version: self.version@,
            author: self.author@,
            date_of_release: self.date_of_release@,
        }
    }
}

/// Chip type and flashing parameters of a run.
///
/// The flag lists are ordered; the three `*_start` fields are the flash
/// offsets of the bootloader, the partition table and the firmware image,
/// kept as the literal texts that go on the tool's command line.
#[derive(Debug)]
pub struct Config {
    pub chip: String,
    pub baud_rate: u32,
    pub before_flags: Vec<String>,
    pub after_flags: Vec<String>,
    pub flash_mode: String,
    pub flash_size: String,
    pub flash_freq: String,
    pub bootloader_start: String,
    pub partition_start: String,
    pub firmware_start: String,
    pub about: About,
}

/// Mathematical value of a [`Config`].
pub struct ConfigView {
    pub chip: Seq<char>,
    pub baud_rate: nat,
    pub before_flags: Seq<Seq<char>>,
    pub after_flags: Seq<Seq<char>>,
    pub flash_mode: Seq<char>,
    pub flash_size: Seq<char>,
    pub flash_freq: Seq<char>,
    pub bootloader_start: Seq<char>,
    pub partition_start: Seq<char>,
    pub firmware_start: Seq<char>,
    pub about: AboutView,
}

/// The texts held by a sequence of strings, in order.
pub open spec fn texts(v: Seq<String>) -> Seq<Seq<char>> {
    Seq::new(v.len(), |i: int| v[i]@)
}

impl View for Config {
    type V = ConfigView;

    open spec fn view(&self) -> ConfigView {
        ConfigView {
            chip: self.chip@,
            baud_rate: self.baud_rate as nat,
            before_flags: texts(self.before_flags@),
            after_flags: texts(self.after_flags@),
            flash_mode: self.flash_mode@,
            flash_size: self.flash_size@,
            flash_freq: self.flash_freq@,
            bootloader_start: self.bootloader_start@,
            partition_start: self.partition_start@,
            firmware_start: self.firmware_start@,
            about: self.about@,
        }
    }
}

/// The record that is used when no settings document is stored.
pub open spec fn default_settings() -> ConfigView {
    ConfigView {
        chip: "esp32s3"@,
        baud_rate: 460800,
        before_flags: seq!["default_reset"@],
        after_flags: seq!["hard_reset"@, "write_flash"@],
        flash_mode: "dio"@,
        flash_size: "8MB"@,
        flash_freq: "80m"@,
        bootloader_start: "0x0"@,
        partition_start: "0x8000"@,
        firmware_start: "0x10000"@,
        about: AboutView {
            name: "ESP_FLASH-GUI"@,
            version: "0.0.1"@,
            author: "Eugene Kokaiko"@,
            date_of_release: "01.01.1970"@,
        },
    }
}

impl Config {
    /// The default record.
    pub fn new() -> (cfg: Self)
        ensures
            cfg@ == default_settings(),
    {
        let mut after_flags: Vec<String> = Vec::new();
        after_flags.push(String::from_str("hard_reset"));
        after_flags.push(String::from_str("write_flash"));
        let mut before_flags: Vec<String> = Vec::new();
        before_flags.push(String::from_str("default_reset"));
        assert(texts(after_flags@) =~= seq!["hard_reset"@, "write_flash"@]);
        assert(texts(before_flags@) =~= seq!["default_reset"@]);
        Self {
            about: About {
                author: String::from_str("Eugene Kokaiko"),
                date_of_release: String::from_str("01.01.1970"),
                name: String::from_str("ESP_FLASH-GUI"),
                version: String::from_str("0.0.1"),
            },
            after_flags,
            before_flags,
            baud_rate: 460800,
            bootloader_start: String::from_str("0x0"),
            partition_start: String::from_str("0x8000"),
            chip: String::from_str("esp32s3"),
            firmware_start: String::from_str("0x10000"),
            flash_freq: String::from_str("80m"),
            flash_mode: String::from_str("dio"),
            flash_size: String::from_str("8MB"),
        }
    }

    /// The record itself.
    pub fn get(&self) -> (cfg: &Self)
        ensures
            cfg == self,
    {
        self
    }

    /// Replaces the whole record by `new_cfg`; nothing of the old one is
    /// merged into it.
    pub fn update_config(&mut self, new_cfg: Config)
        ensures
            *final(self) == new_cfg,
    {
        *self = new_cfg;
    }
}

} // verus!
