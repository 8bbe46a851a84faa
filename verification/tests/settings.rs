use esp_flash_gui::arguments::build_arguments;
use esp_flash_gui::config::{About, Config, CONFIG_FILENAME};
use esp_flash_gui::decimal::decimal_string;

#[test]
fn default_record() {
    let cfg = Config::new();
    assert_eq!(cfg.chip, "esp32s3");
    assert_eq!(cfg.baud_rate, 460800);
    assert_eq!(cfg.before_flags, vec!["default_reset"]);
    assert_eq!(cfg.after_flags, vec!["hard_reset", "write_flash"]);
    assert_eq!(cfg.flash_mode, "dio");
    assert_eq!(cfg.flash_size, "8MB");
    assert_eq!(cfg.flash_freq, "80m");
    assert_eq!(cfg.bootloader_start, "0x0");
    assert_eq!(cfg.partition_start, "0x8000");
    assert_eq!(cfg.firmware_start, "0x10000");
    assert_eq!(cfg.about.name, "ESP_FLASH-GUI");
    assert_eq!(cfg.about.version, "0.0.1");
    assert_eq!(cfg.about.author, "Eugene Kokaiko");
    assert_eq!(cfg.about.date_of_release, "01.01.1970");
}

#[test]
fn get_hands_out_the_record() {
    let cfg = Config::new();
    let same = cfg.get();
    assert!(std::ptr::eq(same, &cfg));
    assert_eq!(same.chip, "esp32s3");
}

#[test]
fn update_replaces_the_whole_record() {
    let mut cfg = Config::new();
    let new_cfg = Config {
        chip: String::from("esp32"),
        baud_rate: 9600,
        before_flags: vec![],
        after_flags: vec![String::from("no_reset")],
        flash_mode: String::from("qio"),
        flash_size: String::from("4MB"),
        flash_freq: String::from("40m"),
        bootloader_start: String::from("0x1000"),
        partition_start: String::from("0x9000"),
        firmware_start: String::from("0x20000"),
        about: About {
            name: String::from("n"),
            version: String::from("v"),
            author: String::from("a"),
            date_of_release: String::from("d"),
        },
    };
    cfg.update_config(new_cfg);
    assert_eq!(cfg.chip, "esp32");
    assert_eq!(cfg.baud_rate, 9600);
    assert!(cfg.before_flags.is_empty());
    assert_eq!(cfg.after_flags, vec!["no_reset"]);
    assert_eq!(cfg.flash_mode, "qio");
    assert_eq!(cfg.flash_size, "4MB");
    assert_eq!(cfg.flash_freq, "40m");
    assert_eq!(cfg.bootloader_start, "0x1000");
    assert_eq!(cfg.partition_start, "0x9000");
    assert_eq!(cfg.firmware_start, "0x20000");
    assert_eq!(cfg.about.name, "n");
    assert_eq!(cfg.about.version, "v");
    assert_eq!(cfg.about.author, "a");
    assert_eq!(cfg.about.date_of_release, "d");
}

#[test]
fn settings_file_name() {
    assert_eq!(CONFIG_FILENAME, "esp-gui.config.json");
}

#[test]
fn argument_vector_for_given_settings() {
    let mut cfg = Config::new();
    cfg.chip = String::from("esp32s3");
    cfg.baud_rate = 460800;
    cfg.before_flags = vec![String::from("default-reset")];
    cfg.after_flags = vec![String::from("hard-reset")];
    cfg.flash_mode = String::from("dio");
    cfg.flash_size = String::from("8MB");
    cfg.flash_freq = String::from("80m");
    cfg.bootloader_start = String::from("0x0");
    cfg.partition_start = String::from("0x8000");
    cfg.firmware_start = String::from("0x10000");
    let args = build_arguments(&cfg, "boot.bin", "part.bin", "fw.bin");
    assert_eq!(
        args.join(" "),
        "--chip esp32s3 -b 460800 --before default-reset --after hard-reset --flash_mode dio \
         --flash_size 8MB --flash_freq 80m 0x0 boot.bin 0x8000 part.bin 0x10000 fw.bin"
    );
    assert_eq!(args.len(), 20);
}

#[test]
fn flags_keep_their_order_and_may_be_absent() {
    let mut cfg = Config::new();
    cfg.before_flags = vec![String::from("b1"), String::from("b2"), String::from("b3")];
    cfg.after_flags = vec![];
    let args = build_arguments(&cfg, "x", "y", "z");
    assert_eq!(
        args,
        vec![
            "--chip", "esp32s3", "-b", "460800", "--before", "b1", "b2", "b3", "--after",
            "--flash_mode", "dio", "--flash_size", "8MB", "--flash_freq", "80m", "0x0", "x",
            "0x8000", "y", "0x10000", "z",
        ]
    );
}

#[test]
fn arguments_are_literal_texts() {
    let mut cfg = Config::new();
    cfg.chip = String::from("");
    cfg.bootloader_start = String::from("not an address");
    let args = build_arguments(&cfg, "with space.bin", "", "ünï.bin");
    assert_eq!(args[1], "");
    assert_eq!(args[15], "not an address");
    assert_eq!(args[16], "with space.bin");
    assert_eq!(args[18], "");
    assert_eq!(args[20], "ünï.bin");
}

#[test]
fn decimal_numerals() {
    assert_eq!(decimal_string(0), "0");
    assert_eq!(decimal_string(7), "7");
    assert_eq!(decimal_string(10), "10");
    assert_eq!(decimal_string(109), "109");
    assert_eq!(decimal_string(460800), "460800");
    assert_eq!(decimal_string(1234567890), "1234567890");
    assert_eq!(decimal_string(u32::MAX), "4294967295");
}

#[test]
fn decimal_numerals_agree_with_the_standard_rendering() {
    let mut n: u32 = 1;
    for _ in 0..200 {
        assert_eq!(decimal_string(n), n.to_string());
        n = n.wrapping_mul(2654435761).wrapping_add(12345);
    }
}
