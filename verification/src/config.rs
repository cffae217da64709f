//! Startup configuration: the flags the process was started with.
//!
//! The argument list is scanned left to right, starting after the program
//! name. A flag that takes a value consumes the argument after it; a flag
//! whose value is missing (the flag is the last argument) is ignored, as
//! is anything that is no known flag. When a flag is given twice, the
//! later occurrence wins.

use vstd::prelude::*;

use crate::registry::slot_view;

verus! {

/// The configuration the process was started with. Only the two command
/// strings feed the dispatch core; the rest drives rendering.
#[derive(Debug, Clone, PartialEq, Eq)]
pub struct TrayConfig {
    /// Command bound to the primary gesture (`--on-left-click`).
    pub primary_command: Option<String>,
    /// Command bound to the secondary gesture (`--on-right-click`).
    pub secondary_command: Option<String>,
    /// Render the icon in full colour instead of as a monochrome
    /// template (`--use-colour`).
    pub use_colour: bool,
    /// A text label shown in place of the icon (`--text`).
    pub label: Option<String>,
    /// Tooltip for the control (`--tooltip`).
    pub tooltip: Option<String>,
}

/// Model of a configuration, over character sequences.
pub struct ConfigModel {
    pub primary_command: Option<Seq<char>>,
    pub secondary_command: Option<Seq<char>>,
    pub use_colour: bool,
    pub label: Option<Seq<char>>,
    pub tooltip: Option<Seq<char>>,
}

impl ConfigModel {
    /// The configuration before any flag is read: nothing set.
    pub open spec fn empty() -> ConfigModel {
        ConfigModel {
            primary_command: None,
            secondary_command: None,
            use_colour: false,
            label: None,
            tooltip: None,
        }
    }
}

impl View for TrayConfig {
    type V = ConfigModel;

    open spec fn view(&self) -> ConfigModel {
        ConfigModel {
            primary_command: slot_view(self.primary_command),
            secondary_command: slot_view(self.secondary_command),
            use_colour: self.use_colour,
            label: slot_view(self.label),
            tooltip: slot_view(self.tooltip),
        }
    }
}

/// The configuration reached after scanning `args` from position `i`
/// onward, having already accumulated `acc`.
pub open spec fn spec_parse_from(args: Seq<String>, i: int, acc: ConfigModel) -> ConfigModel
    decreases args.len() - i,
{
    if i < 0 || i >= args.len() {
        acc
    } else if args[i]@ == "--on-left-click"@ && i + 1 < args.len() {
        spec_parse_from(
            args,
            i + 2,
            ConfigModel { primary_command: Some(args[i + 1]@), ..acc },
        )
    } else if args[i]@ == "--on-right-click"@ && i + 1 < args.len() {
        spec_parse_from(
            args,
            i + 2,
            ConfigModel { secondary_command: Some(args[i + 1]@), ..acc },
        )
    } else if args[i]@ == "--use-colour"@ {
        spec_parse_from(args, i + 1, ConfigModel { use_colour: true, ..acc })
    } else if args[i]@ == "--text"@ && i + 1 < args.len() {
        spec_parse_from(args, i + 2, ConfigModel { label: Some(args[i + 1]@), ..acc })
    } else if args[i]@ == "--tooltip"@ && i + 1 < args.len() {
        spec_parse_from(args, i + 2, ConfigModel { tooltip: Some(args[i + 1]@), ..acc })
    } else {
        spec_parse_from(args, i + 1, acc)
    }
}

/// The configuration denoted by a full argument list, the program name in
/// front.
pub open spec fn spec_parse(args: Seq<String>) -> ConfigModel {
    spec_parse_from(args, 1, ConfigModel::empty())
}

/// Parses the argument list the process was started with (program name
/// included) into its configuration.
pub fn parse_args(args: &Vec<String>) -> (c: TrayConfig)
    ensures
        c@ == spec_parse(args@),
{
    let flag_primary: String = "--on-left-click".to_owned();
    let flag_secondary: String = "--on-right-click".to_owned();
    let flag_colour: String = "--use-colour".to_owned();
    let flag_label: String = "--text".to_owned();
    let flag_tooltip: String = "--tooltip".to_owned();
    let mut cfg = TrayConfig {
        primary_command: None,
        secondary_command: None,
        use_colour: false,
        label: None,
        tooltip: None,
    };
    let mut i: usize = 1;
    while i < args.len()
        invariant
            spec_parse_from(args@, i as int, cfg@) == spec_parse(args@),
            flag_primary@ == "--on-left-click"@,
            flag_secondary@ == "--on-right-click"@,
            flag_colour@ == "--use-colour"@,
            flag_label@ == "--text"@,
            flag_tooltip@ == "--tooltip"@,
        decreases args.len() - i,
    {
        if args[i] == flag_primary && i + 1 < args.len() {
            cfg.primary_command = Some(args[i + 1].clone());
            i = i + 2;
        } else if args[i] == flag_secondary && i + 1 < args.len() {
            cfg.secondary_command = Some(args[i + 1].clone());
            i = i + 2;
        } else if args[i] == flag_colour {
            cfg.use_colour = true;
            i = i + 1;
        } else if args[i] == flag_label && i + 1 < args.len() {
            cfg.label = Some(args[i + 1].clone());
            i = i + 2;
        } else if args[i] == flag_tooltip && i + 1 < args.len() {
            cfg.tooltip = Some(args[i + 1].clone());
            i = i + 2;
        } else {
            i = i + 1;
        }
    }
    cfg
}

} // verus!
