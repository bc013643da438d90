//! The command line that the server understands.
//!
//! The definition is plain data: the argument parser is built from it, and
//! the values that the parser finds go to the resolver under the same names.

use vstd::prelude::*;

verus! {

/// Name of the interface argument.
pub const ARG_IFACE: &'static str = "iface";

/// Name of the source network option.
pub const ARG_SRC_NET: &'static str = "src_net";

/// Name of the source port option.
pub const ARG_SRC_PORT: &'static str = "src_port";

/// Name of the gateway option.
pub const ARG_GW: &'static str = "gw";

/// The source port that the help text shows as the default.
pub const DEFAULT_PORT_TEXT: &'static str = "12221";

/// One argument of the command line.
#[derive(Clone, Copy, Debug)]
pub struct ArgSpec {
    /// The name under which the value is looked up after parsing.
    pub name: &'static str,
    /// The long flag, without its dashes.
    pub long: Option<&'static str>,
    /// The short flag, without its dash.
    pub short: Option<&'static str>,
    /// How the value is called in the usage text.
    pub value_name: Option<&'static str>,
    /// The help text.
    pub help: &'static str,
    /// Whether the argument carries a value.
    pub takes_value: bool,
    /// The value taken when the argument is absent.
    pub default_value: Option<&'static str>,
    /// Whether the command line is refused without it.
    pub required: bool,
    /// For a positional argument, its position, counted from one.
    pub index: Option<u64>,
}

/// An argument as contracts see it: texts by their characters.
pub struct ArgSpecView {
    pub name: Seq<char>,
    pub long: Option<Seq<char>>,
    pub short: Option<Seq<char>>,
    pub value_name: Option<Seq<char>>,
    pub help: Seq<char>,
    pub takes_value: bool,
    pub default_value: Option<Seq<char>>,
    pub required: bool,
    pub index: Option<u64>,
}

/// The characters of a text that may be absent.
pub open spec fn text_view(text: Option<&'static str>) -> Option<Seq<char>> {
    match text {
        Some(t) => Some(t@),
        None => None,
    }
}

impl View for ArgSpec {
    type V = ArgSpecView;

    open spec fn view(&self) -> ArgSpecView {
        ArgSpecView {
            name: self.name@,
            long: text_view(self.long),
            short: text_view(self.short),
            value_name: text_view(self.value_name),
            help: self.help@,
            takes_value: self.takes_value,
            default_value: text_view(self.default_value),
            required: self.required,
            index: self.index,
        }
    }
}

/// The whole command line: the program's name, what it is, and its
/// arguments in the order the usage text lists them.
#[derive(Debug)]
pub struct AppSpec {
    pub name: &'static str,
    pub about: &'static str,
    pub args: Vec<ArgSpec>,
}

/// `--ip <CIDR>`: the source network. Optional.
pub open spec fn src_net_arg() -> ArgSpecView {
    ArgSpecView {
        name: ARG_SRC_NET@,
        long: Some("ip"@),
        short: None,
        value_name: Some("CIDR"@),
        help: "Local IP and prefix to send from, in CIDR format. Will default to first IP on given iface and prefix 24."@,
        takes_value: true,
        default_value: None,
        required: false,
        index: None,
    }
}

/// `--sport <PORT>`: the source port. Optional, with a default.
pub open spec fn src_port_arg() -> ArgSpecView {
    ArgSpecView {
        name: ARG_SRC_PORT@,
        long: Some("sport"@),
        short: None,
        value_name: Some("PORT"@),
        help: "Local port to bind to and send from."@,
        takes_value: true,
        default_value: Some(DEFAULT_PORT_TEXT@),
        required: false,
        index: None,
    }
}

/// `--gateway <IP>`, short `-gw`: the default gateway. Optional.
pub open spec fn gw_arg() -> ArgSpecView {
    ArgSpecView {
        name: ARG_GW@,
        long: Some("gateway"@),
        short: Some("gw"@),
        value_name: Some("IP"@),
        help: "The default gateway to use if the destination is not on the local network. Must be inside the network given to --ip. Defaults to the first address in the network given to --ip"@,
        takes_value: true,
        default_value: None,
        required: false,
        index: None,
    }
}

/// The interface name: the first positional argument, and the one argument
/// that is required.
pub open spec fn iface_arg() -> ArgSpecView {
    ArgSpecView {
        name: ARG_IFACE@,
        long: None,
        short: None,
        value_name: None,
        help: "Network interface to use"@,
        takes_value: true,
        default_value: None,
        required: true,
        index: Some(1),
    }
}

/// Describes the server's command line.
pub fn create_app() -> (app: AppSpec)
    ensures
        app.name@ == "UDP ping server"@,
        app.about@ == "A simple UDP ping server with a userspace network stack"@,
        app.args@.len() == 4,
        app.args@[0]@ == src_net_arg(),
        app.args@[1]@ == src_port_arg(),
        app.args@[2]@ == gw_arg(),
        app.args@[3]@ == iface_arg(),
{
    let src_net_arg = ArgSpec {
        name: ARG_SRC_NET,
        long: Some("ip"),
        short: None,
        value_name: Some("CIDR"),
        help: "Local IP and prefix to send from, in CIDR format. Will default to first IP on given iface and prefix 24.",
        takes_value: true,
        default_value: None,
        required: false,
        index: None,
    };
    let src_port_arg = ArgSpec {
        name: ARG_SRC_PORT,
        long: Some("sport"),
        short: None,
        value_name: Some("PORT"),
        help: "Local port to bind to and send from.",
        takes_value: true,
        default_value: Some(DEFAULT_PORT_TEXT),
        required: false,
        index: None,
    };
    let gw = ArgSpec {
        name: ARG_GW,
        long: Some("gateway"),
        short: Some("gw"),
        value_name: Some("IP"),
        help: "The default gateway to use if the destination is not on the local network. Must be inside the network given to --ip. Defaults to the first address in the network given to --ip",
        takes_value: true,
        default_value: None,
        required: false,
        index: None,
    };
    let iface_arg = ArgSpec {
        name: ARG_IFACE,
        long: None,
        short: None,
        value_name: None,
        help: "Network interface to use",
        takes_value: true,
        default_value: None,
        required: true,
        index: Some(1),
    };
    let mut args: Vec<ArgSpec> = Vec::new();
    args.push(src_net_arg);
    args.push(src_port_arg);
    args.push(gw);
    args.push(iface_arg);
    AppSpec {
        name: "UDP ping server",
        about: "A simple UDP ping server with a userspace network stack",
        args,
    }
}

} // verus!
