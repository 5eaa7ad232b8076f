use vstd::prelude::*;

verus! {

/// The decimal digit for `d`, which is below ten.
pub open spec fn digit_char(d: nat) -> char {
    if d == 0 { '0' }
    else if d == 1 { '1' }
    else if d == 2 { '2' }
    else if d == 3 { '3' }
    else if d == 4 { '4' }
    else if d == 5 { '5' }
    else if d == 6 { '6' }
    else if d == 7 { '7' }
    else if d == 8 { '8' }
    else { '9' }
}

/// The decimal notation of `n`, without leading zeros.
pub open spec fn decimal(n: nat) -> Seq<char>
    decreases n,
{
    if n < 10 {
        seq![digit_char(n)]
    } else {
        decimal(n / 10).push(digit_char(n % 10))
    }
}

fn digit_str(d: u16) -> (r: &'static str)
    requires
        d < 10,
    ensures
        r@ == seq![digit_char(d as nat)],
{
    let r = match d {
        0 => "0",
        1 => "1",
        2 => "2",
        3 => "3",
        4 => "4",
        5 => "5",
        6 => "6",
        7 => "7",
        8 => "8",
        _ => "9",
    };
    proof {
        reveal_strlit("0");
        reveal_strlit("1");
        reveal_strlit("2");
        reveal_strlit("3");
        reveal_strlit("4");
        reveal_strlit("5");
        reveal_strlit("6");
        reveal_strlit("7");
        reveal_strlit("8");
        reveal_strlit("9");
        assert(r@ =~= seq![digit_char(d as nat)]);
    }
    r
}

/// The decimal notation of `n`.
pub fn decimal_text(n: u16) -> (r: String)
    ensures
        r@ == decimal(n as nat),
    decreases n,
{
    if n < 10 {
        String::from_str(digit_str(n))
    } else {
        let mut s = decimal_text(n / 10);
        s.append(digit_str(n % 10));
        proof {
            assert(s@ =~= decimal((n / 10) as nat).push(digit_char((n % 10) as nat)));
        }
        s
    }
}

/// `part` joined onto `base` as a path on a Unix system: an absolute `part`
/// replaces `base`, and a separator is put between them where `base` is not
/// empty and does not already end in one.
pub open spec fn join_path(base: Seq<char>, part: Seq<char>) -> Seq<char> {
    if part.len() > 0 && part[0] == '/' {
        part
    } else if base.len() == 0 || base.last() == '/' {
        base + part
    } else {
        base + seq!['/'] + part
    }
}

/// Joins `part` onto `base` as a path, as [`join_path`] states.
pub fn join(base: &str, part: &str) -> (r: String)
    ensures
        r@ == join_path(base@, part@),
{
    let part_len = part.unicode_len();
    let base_len = base.unicode_len();
    if part_len > 0 && part.get_char(0) == '/' {
        String::from_str(part)
    } else if base_len == 0 || base.get_char(base_len - 1) == '/' {
        let mut r = String::from_str(base);
        r.append(part);
        r
    } else {
        let mut r = String::from_str(base);
        r.append("/");
        r.append(part);
        proof {
            reveal_strlit("/");
            assert(r@ =~= base@ + seq!['/'] + part@);
        }
        r
    }
}

/// The JSON text of the string `s`: quoted, with the characters that JSON
/// does not allow inside a string escaped.
pub uninterp spec fn json_string_of(s: Seq<char>) -> Seq<char>;

/// Relies on serde_json's `Value::String` and its `Display` impl, which writes
/// the value as compact JSON text.
#[verifier::external_body]
pub(crate) fn json_string(s: &str) -> (r: String)
    ensures
        r@ == json_string_of(s@),
{
    jsonrpc::serde_json::Value::String(s.to_owned()).to_string()
}

/// The daemon's configuration file: an RPC port, the RPC credentials (given
/// as JSON string texts) and logging to a file switched on.
pub open spec fn config_json_spec(rpc_port: u16, user_json: Seq<char>, password_json: Seq<char>) -> Seq<char> {
    "{\"log_to_file\":true,\"rpcpassword\":"@ + password_json + ",\"rpcport\":"@
        + decimal(rpc_port as nat) + ",\"rpcuser\":"@ + user_json + "}"@
}

/// Writes the daemon's configuration file text from the RPC port and the
/// JSON string texts of the RPC user and password.
pub fn config_json(rpc_port: u16, user_json: &str, password_json: &str) -> (r: String)
    ensures
        r@ == config_json_spec(rpc_port, user_json@, password_json@),
{
    let mut r = String::from_str("{\"log_to_file\":true,\"rpcpassword\":");
    r.append(password_json);
    r.append(",\"rpcport\":");
    let port = decimal_text(rpc_port);
    r.append(port.as_str());
    r.append(",\"rpcuser\":");
    r.append(user_json);
    r.append("}");
    r
}

/// The named parameters of the `load_wallet` call, from the JSON string text
/// of the wallet's path.
pub open spec fn load_wallet_params_spec(path_json: Seq<char>) -> Seq<char> {
    "{\"wallet_path\":"@ + path_json + "}"@
}

/// Writes the named parameters of the `load_wallet` call from the JSON
/// string text of the wallet's path.
pub fn load_wallet_params(path_json: &str) -> (r: String)
    ensures
        r@ == load_wallet_params_spec(path_json@),
{
    let mut r = String::from_str("{\"wallet_path\":");
    r.append(path_json);
    r.append("}");
    r
}

} // verus!
