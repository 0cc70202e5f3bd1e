//! Ports, as far as the lifecycle of a client needs them.

use vstd::prelude::*;
use crate::client::Client;
use crate::error::Error;

verus! {

/// The kind of port that takes audio in.
#[derive(Clone, Copy, Debug, Default, PartialEq, Eq)]
pub struct AudioIn;

/// The kind of port that gives audio out.
#[derive(Clone, Copy, Debug, Default, PartialEq, Eq)]
pub struct AudioOut;

/// A port that the server registered for a client.
#[derive(Debug)]
pub struct Port<PS> {
    spec: PS,
    name: String,
    raw: usize,
}

/// The mathematical content of a port.
pub struct PortView<PS> {
    /// What kind of port it is.
    pub spec: PS,
    /// The name it was registered under.
    pub name: Seq<char>,
    /// The server's handle for it, never zero.
    pub raw: usize,
}

impl<PS> View for Port<PS> {
    type V = PortView<PS>;

    closed spec fn view(&self) -> PortView<PS> {
        PortView { spec: self.spec, name: self.name@, raw: self.raw }
    }
}

impl<PS> Port<PS> {
    /// The name the port was registered under.
    pub fn name(&self) -> (name: &str)
        ensures
            name@ == self@.name,
    {
        self.name.as_str()
    }

    /// The server's handle for the port.
    pub fn raw(&self) -> (raw: usize)
        ensures
            raw == self@.raw,
    {
        self.raw
    }

    /// What kind of port it is.
    pub fn spec(&self) -> (spec: &PS)
        ensures
            *spec == self@.spec,
    {
        &self.spec
    }
}

impl Client {
    /// Decides a request to register a port called `port_name` from the
    /// server's `reply`: the handle of the new port, or zero when it made
    /// none, which is the failure `PortRegistrationError` with the name.
    pub fn register_port<PS>(&self, port_name: &str, port_spec: PS, reply: usize) -> (registered:
        Result<Port<PS>, Error>)
        ensures
            reply != 0 <==> registered is Ok,
            registered matches Ok(port) ==> port@ == (PortView {
                spec: port_spec,
                name: port_name@,
                raw: reply,
            }),
            registered matches Err(error) ==> error matches Error::PortRegistrationError(name)
                && name@ == port_name@,
    {
        if reply == 0 {
            Err(Error::PortRegistrationError(port_name.to_owned()))
        } else {
            Ok(Port { spec: port_spec, name: port_name.to_owned(), raw: reply })
        }
    }

    /// Decides a request to take `port` away from the server's `reply`:
    /// zero when it did, anything else is the failure
    /// `PortDisconnectionError`. The port is given up either way.
    pub fn unregister_port<PS>(&self, port: Port<PS>, reply: i32) -> (unregistered: Result<
        (),
        Error,
    >)
        ensures
            reply == 0 ==> unregistered == Ok::<(), Error>(()),
            reply != 0 ==> unregistered == Err::<(), Error>(Error::PortDisconnectionError),
    {
        if reply == 0 {
            Ok(())
        } else {
            Err(Error::PortDisconnectionError)
        }
    }
}

} // verus!
