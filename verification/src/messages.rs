//! Enums whose variants carry different kinds of data.

use vstd::prelude::*;

verus! {

pub enum IpAddrKind {
    V4,
    V6,
}

pub struct IpAddr {
    pub kind: IpAddrKind,
    pub address: String,
}

pub enum Message {
    Quit,
    Move { x: i32, y: i32 },
    Write(String),
    ChangeColor(i32, i32, i32),
}

impl Message {
    /// Receives the message; this lesson attaches no behaviour to it.
    pub fn call(&self) {
    }
}

/// Accepts an address of either kind; this lesson attaches no behaviour to it.
pub fn route(ip_type: IpAddrKind) {
    let _ = ip_type;
}

} // verus!
