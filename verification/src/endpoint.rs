//! Where the service and the services it talks to are reached.

use crate::status::{code_of, ReplyStatus};
use crate::types::StatusCode;
use vstd::prelude::*;
use vstd::string::StringExecFns;

verus! {

/// The decimal digit for a number below ten.
pub open spec fn digit(n: nat) -> char {
    ('0' as nat + n) as char
}

/// A number in decimal, without leading zeros.
pub open spec fn decimal(n: nat) -> Seq<char>
    decreases n,
{
    if n < 10 {
        seq![digit(n)]
    } else {
        decimal(n / 10).push(digit(n % 10))
    }
}

/// The decimal digit for a number below ten.
fn digit_text(n: u16) -> (text: String)
    requires
        n < 10,
    ensures
        text@ == seq![digit(n as nat)],
{
    proof {
        reveal_strlit("0");
        reveal_strlit("1");
        reveal_strlit("2");
        reveal_strlit("3");
        reveal_strlit("4");
        reveal_strlit("5");
        reveal_strlit("6");
        reveal_strlit("7");
        reveal_strlit("8");
        reveal_strlit("9");
    }
    let text = match n {
        0 => "0",
        1 => "1",
        2 => "2",
        3 => "3",
        4 => "4",
        5 => "5",
        6 => "6",
        7 => "7",
        8 => "8",
        _ => "9",
    };
    assert(text@ =~= seq![digit(n as nat)]);
    text.to_owned()
}

/// A port in decimal.
pub fn port_text(port: u16) -> (text: String)
    ensures
        text@ == decimal(port as nat),
    decreases port,
{
    if port < 10 {
        digit_text(port)
    } else {
        let text = port_text(port / 10).concat(digit_text(port % 10).as_str());
        assert(text@ =~= decimal(port as nat));
        text
    }
}

/// The address that the service listens at.
pub fn listen_address(port: u16) -> (text: String)
    ensures
        text@ == "[::]:"@ + decimal(port as nat),
{
    "[::]:".to_owned().concat(port_text(port).as_str())
}

/// The address of a service on the same machine.
pub fn local_service(port: u16) -> (text: String)
    ensures
        text@ == "http://127.0.0.1:"@ + decimal(port as nat),
{
    "http://127.0.0.1:".to_owned().concat(port_text(port).as_str())
}

/// What the network service has to know to hand messages on.
#[derive(Debug)]
pub struct RegisterInfo {
    pub module_name: String,
    pub hostname: String,
    pub port: String,
}

/// What to register at the network service with, for the port that the service
/// listens at.
pub fn register_info(port: u16) -> (info: RegisterInfo)
    ensures
        info.module_name@ == "consensus"@,
        info.hostname@ == "localhost"@,
        info.port@ == decimal(port as nat),
{
    RegisterInfo {
        module_name: "consensus".to_owned(),
        hostname: "localhost".to_owned(),
        port: port_text(port),
    }
}

/// Whether the network service took a registration; no reply stands for a failed
/// request. Until it did, the registration is to be tried again.
pub fn is_registered(reply: Option<StatusCode>) -> (res: bool)
    ensures
        res == (reply == Some(StatusCode { code: ReplyStatus::Success.code() })),
        res <==> (reply matches Some(status) && status.code == 0),
{
    match reply {
        Some(status) => status.code == code_of(ReplyStatus::Success),
        None => false,
    }
}

} // verus!
