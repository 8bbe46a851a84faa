//! Assembly of the flashing tool's command line.
//!
//! The tool is invoked as
//! `--chip <chip> -b <baud> --before <flag>... --after <flag>...
//! --flash_mode <mode> --flash_size <size> --flash_freq <freq>
//! <addr0> <path0> <addr1> <path1> <addr2> <path2>`,
//! where the three address and path pairs are those of the bootloader, the
//! partition table and the firmware image, in that order.

use vstd::prelude::*;
use vstd::string::*;
use crate::config::{texts, Config, ConfigView};
use crate::decimal::{decimal_string, decimal_text};

verus! {

/// The argument vector for the settings `cfg` and the three image paths.
///
/// Flags keep the order they have in the settings; addresses and paths are
/// passed on as the literal texts they are.
pub open spec fn flash_arguments(
    cfg: ConfigView,
    bootloader: Seq<char>,
    partition_table: Seq<char>,
    firmware: Seq<char>,
) -> Seq<Seq<char>> {
    seq!["--chip"@, cfg.chip, "-b"@, decimal_text(cfg.baud_rate), "--before"@] + cfg.before_flags
        + seq!["--after"@] + cfg.after_flags + seq![
        "--flash_mode"@,
        cfg.flash_mode,
        "--flash_size"@,
        cfg.flash_size,
        "--flash_freq"@,
        cfg.flash_freq,
        cfg.bootloader_start,
        bootloader,
        cfg.partition_start,
        partition_table,
        cfg.firmware_start,
        firmware,
    ]
}

/// Appends one text.
pub(crate) fn push_text(args: &mut Vec<String>, text: &str)
    ensures
        texts(final(args)@) == texts(old(args)@).push(text@),
{
    args.push(String::from_str(text));
    assert(texts(args@) =~= texts(old(args)@).push(text@));
}

/// Appends every text of `more`, in order.
fn extend_texts(args: &mut Vec<String>, more: &Vec<String>)
    ensures
        texts(final(args)@) == texts(old(args)@) + texts(more@),
{
    let mut i: usize = 0;
    assert(texts(args@) =~= texts(old(args)@) + texts(more@.take(0)));
    while i < more.len()
        invariant
            i <= more.len(),
            texts(args@) == texts(old(args)@) + texts(more@.take(i as int)),
        decreases more.len() - i,
    {
        let ghost before = args@;
        args.push(more[i].clone());
        assert(texts(args@) =~= texts(before).push(more@[i as int]@));
        assert(texts(more@.take(i + 1)) =~= texts(more@.take(i as int)).push(more@[i as int]@));
        i = i + 1;
    }
    assert(more@.take(more.len() as int) =~= more@);
}

/// Builds the argument vector of a run.
pub fn build_arguments(cfg: &Config, bootloader: &str, partition_table: &str, firmware: &str) -> (args:
    Vec<String>)
    ensures
        texts(args@) == flash_arguments(cfg@, bootloader@, partition_table@, firmware@),
{
    let mut args: Vec<String> = Vec::new();
    let baud = decimal_string(cfg.baud_rate);
    assert(texts(args@) =~= Seq::<Seq<char>>::empty());
    push_text(&mut args, "--chip");
    push_text(&mut args, cfg.chip.as_str());
    push_text(&mut args, "-b");
    push_text(&mut args, baud.as_str());
    push_text(&mut args, "--before");
    assert(texts(args@) =~= seq![
        "--chip"@,
        cfg@.chip,
        "-b"@,
        decimal_text(cfg@.baud_rate),
        "--before"@,
    ]);
    extend_texts(&mut args, &cfg.before_flags);
    push_text(&mut args, "--after");
    extend_texts(&mut args, &cfg.after_flags);
    let ghost head = texts(args@);
    assert(head =~= seq![
        "--chip"@,
        cfg@.chip,
        "-b"@,
        decimal_text(cfg@.baud_rate),
        "--before"@,
    ] + cfg@.before_flags + seq!["--after"@] + cfg@.after_flags);
    push_text(&mut args, "--flash_mode");
    push_text(&mut args, cfg.flash_mode.as_str());
    push_text(&mut args, "--flash_size");
    push_text(&mut args, cfg.flash_size.as_str());
    push_text(&mut args, "--flash_freq");
    push_text(&mut args, cfg.flash_freq.as_str());
    push_text(&mut args, cfg.bootloader_start.as_str());
    push_text(&mut args, bootloader);
    push_text(&mut args, cfg.partition_start.as_str());
    push_text(&mut args, partition_table);
    push_text(&mut args, cfg.firmware_start.as_str());
    push_text(&mut args, firmware);
    assert(texts(args@) =~= head + seq![
        "--flash_mode"@,
        cfg@.flash_mode,
        "--flash_size"@,
        cfg@.flash_size,
        "--flash_freq"@,
        cfg@.flash_freq,
        cfg@.bootloader_start,
        bootloader@,
        cfg@.partition_start,
        partition_table@,
        cfg@.firmware_start,
        firmware@,
    ]);
    args
}

} // verus!
