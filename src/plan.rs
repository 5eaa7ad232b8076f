use vstd::prelude::*;

use crate::conf::Conf;
use crate::params::{socket_text, SocketAddrV4};
use crate::text::{
    config_json, config_json_spec, join, join_path, json_string, json_string_of,
    load_wallet_params, load_wallet_params_spec,
};

verus! {

/// The RPC user written into the daemon's configuration.
pub const RPC_USER: &'static str = "electrumd";

/// The views of a sequence of strings.
pub open spec fn strings_view(v: Seq<String>) -> Seq<Seq<char>> {
    v.map_values(|s: String| s@)
}

/// The views of a sequence of string slices.
pub open spec fn strs_view(v: Seq<&str>) -> Seq<Seq<char>> {
    v.map_values(|s: &str| s@)
}

/// The network subdirectory of a data directory.
pub open spec fn network_dir_spec(datadir: Seq<char>, network: Seq<char>) -> Seq<char> {
    join_path(datadir, network)
}

/// The directory that holds the wallets.
pub open spec fn wallet_dir_spec(datadir: Seq<char>, network: Seq<char>) -> Seq<char> {
    join_path(network_dir_spec(datadir, network), "wallets"@)
}

/// The path of the default wallet.
pub open spec fn wallet_path_spec(datadir: Seq<char>, network: Seq<char>) -> Seq<char> {
    join_path(wallet_dir_spec(datadir, network), "default_wallet"@)
}

/// The path of the daemon's configuration file.
pub open spec fn config_path_spec(datadir: Seq<char>, network: Seq<char>) -> Seq<char> {
    join_path(network_dir_spec(datadir, network), "config"@)
}

/// The daemon's command line after the executable: the daemon subcommand,
/// the data directory, the network flag, then the caller's arguments.
pub open spec fn daemon_args_spec(datadir: Seq<char>, network: Seq<char>, extra: Seq<Seq<char>>) -> Seq<Seq<char>> {
    seq!["daemon"@, "--dir"@, datadir, "--"@ + network] + extra
}

/// The URL that the RPC client is built with.
pub open spec fn client_url_spec(rpc_port: u16) -> Seq<char> {
    "http://"@ + socket_text(seq![127u8, 0u8, 0u8, 1u8], rpc_port) + "/"@
}

/// Everything that one daemon instance is started with, derived from the
/// configuration, the working directory, the RPC port and the RPC password.
pub struct StartupPlan {
    /// The working directory, passed to the daemon as its data directory.
    pub datadir: String,
    /// The network subdirectory, `<datadir>/<network>`.
    pub network_dir: String,
    /// The directory of the wallets, `<datadir>/<network>/wallets`.
    pub wallet_dir: String,
    /// The default wallet, `<datadir>/<network>/wallets/default_wallet`.
    pub wallet_path: String,
    /// The configuration file, `<datadir>/<network>/config`.
    pub config_path: String,
    /// The text of the configuration file.
    pub config_text: String,
    /// The daemon's command line arguments.
    pub args: Vec<String>,
    /// Whether the daemon's output is shown.
    pub view_stdout: bool,
    /// The RPC port on the loopback address.
    pub rpc_port: u16,
    /// The URL that the RPC client connects to.
    pub client_url: String,
    /// The RPC user.
    pub rpc_user: String,
    /// The RPC password.
    pub rpc_password: String,
    /// The parameters of the `load_wallet` call, as JSON text.
    pub load_params: String,
}

/// The mathematical content of a [`StartupPlan`].
pub struct PlanView {
    pub datadir: Seq<char>,
    pub network_dir: Seq<char>,
    pub wallet_dir: Seq<char>,
    pub wallet_path: Seq<char>,
    pub config_path: Seq<char>,
    pub config_text: Seq<char>,
    pub args: Seq<Seq<char>>,
    pub view_stdout: bool,
    pub rpc_port: u16,
    pub client_url: Seq<char>,
    pub rpc_user: Seq<char>,
    pub rpc_password: Seq<char>,
    pub load_params: Seq<char>,
}

impl View for StartupPlan {
    type V = PlanView;

    open spec fn view(&self) -> PlanView {
        PlanView {
            datadir: self.datadir@,
            network_dir: self.network_dir@,
            wallet_dir: self.wallet_dir@,
            wallet_path: self.wallet_path@,
            config_path: self.config_path@,
            config_text: self.config_text@,
            args: strings_view(self.args@),
            view_stdout: self.view_stdout,
            rpc_port: self.rpc_port,
            client_url: self.client_url@,
            rpc_user: self.rpc_user@,
            rpc_password: self.rpc_password@,
            load_params: self.load_params@,
        }
    }
}

/// The plan that a configuration, a working directory, an RPC port and an
/// RPC password determine.
pub open spec fn plan_spec(
    conf_args: Seq<Seq<char>>,
    view_stdout: bool,
    network: Seq<char>,
    datadir: Seq<char>,
    rpc_port: u16,
    rpc_password: Seq<char>,
) -> PlanView {
    PlanView {
        datadir,
        network_dir: network_dir_spec(datadir, network),
        wallet_dir: wallet_dir_spec(datadir, network),
        wallet_path: wallet_path_spec(datadir, network),
        config_path: config_path_spec(datadir, network),
        config_text: config_json_spec(rpc_port, json_string_of(RPC_USER@), json_string_of(rpc_password)),
        args: daemon_args_spec(datadir, network, conf_args),
        view_stdout,
        rpc_port,
        client_url: client_url_spec(rpc_port),
        rpc_user: RPC_USER@,
        rpc_password,
        load_params: load_wallet_params_spec(json_string_of(wallet_path_spec(datadir, network))),
    }
}

/// The daemon's command line arguments.
pub fn daemon_args(datadir: &str, network: &str, extra: &Vec<&str>) -> (r: Vec<String>)
    ensures
        strings_view(r@) == daemon_args_spec(datadir@, network@, strs_view(extra@)),
{
    let mut r: Vec<String> = Vec::new();
    r.push(String::from_str("daemon"));
    r.push(String::from_str("--dir"));
    r.push(String::from_str(datadir));
    let mut flag = String::from_str("--");
    flag.append(network);
    r.push(flag);
    let ghost head = seq!["daemon"@, "--dir"@, datadir@, "--"@ + network@];
    assert(strings_view(r@) =~= head);
    let mut i: usize = 0;
    while i < extra.len()
        invariant
            0 <= i <= extra@.len(),
            strings_view(r@) =~= head + strs_view(extra@.subrange(0, i as int)),
        decreases extra@.len() - i,
    {
        let arg = String::from_str(extra[i]);
        let ghost before = r@;
        r.push(arg);
        assert(strings_view(r@) =~= strings_view(before).push(arg@));
        assert(strs_view(extra@.subrange(0, i + 1)) =~= strs_view(extra@.subrange(0, i as int)).push(extra@[i as int]@));
        i += 1;
    }
    assert(extra@.subrange(0, i as int) =~= extra@);
    r
}

impl StartupPlan {
    /// Derives the plan of one daemon instance from `conf`, the working
    /// directory `datadir`, the RPC port and the RPC password.
    pub fn new(conf: &Conf, datadir: &str, rpc_port: u16, rpc_password: &str) -> (r: StartupPlan)
        ensures
            r@ == plan_spec(strs_view(conf.args@), conf.view_stdout, conf.network@, datadir@, rpc_port, rpc_password@),
    {
        let network_dir = join(datadir, conf.network);
        let wallet_dir = join(network_dir.as_str(), "wallets");
        let wallet_path = join(wallet_dir.as_str(), "default_wallet");
        let config_path = join(network_dir.as_str(), "config");
        let user_json = json_string(RPC_USER);
        let password_json = json_string(rpc_password);
        let config_text = config_json(rpc_port, user_json.as_str(), password_json.as_str());
        let args = daemon_args(datadir, conf.network, &conf.args);
        let mut client_url = String::from_str("http://");
        client_url.append(SocketAddrV4::loopback(rpc_port).to_text().as_str());
        client_url.append("/");
        let path_json = json_string(wallet_path.as_str());
        let load_params = load_wallet_params(path_json.as_str());
        StartupPlan {
            datadir: String::from_str(datadir),
            network_dir,
            wallet_dir,
            wallet_path,
            config_path,
            config_text,
            args,
            view_stdout: conf.view_stdout,
            rpc_port,
            client_url,
            rpc_user: String::from_str(RPC_USER),
            rpc_password: String::from_str(rpc_password),
            load_params,
        }
    }
}

} // verus!
