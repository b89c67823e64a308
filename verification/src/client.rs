//! The client of the API server: where it asks, and how it reads an answer.

use vstd::prelude::*;
use vstd::string::*;

verus! {

#[derive(Clone, Debug)]
pub struct Client {
    api_server: String,
}

#[derive(Clone, Debug)]
pub struct VirtualMachineClient {
    api_server: String,
}

#[derive(Clone, Debug, PartialEq, Eq)]
pub enum Error {
    /// The server answered with a status outside 200..=299.
    HttpNoSuccess(u16, String),
}

impl Client {
    /// The socket of the API server that the client asks.
    pub closed spec fn server(&self) -> Seq<char> {
        self.api_server@
    }
    /// A client of the API server that listens on the socket `api_server`.

    pub fn new(api_server: String) -> (r: Client)
        ensures
            r.server() == api_server@,
    {
        Client { api_server }
    }
    /// The part of the client that asks for guests.

    pub fn virtualmachines(&self) -> (r: VirtualMachineClient)
        ensures
            r.server() == self.server(),
    {
        VirtualMachineClient { api_server: self.api_server.clone() }
    }
}

impl VirtualMachineClient {
    /// The socket of the API server that the client asks.
    pub closed spec fn server(&self) -> Seq<char> {
        self.api_server@
    }

    /// The socket of the API server that the client asks.
    pub fn api_server(&self) -> (r: &str)
        ensures
            r@ == self.server(),
    {
        self.api_server.as_str()
    }

    /// The path under which the server lists the guests.
    pub fn list_path(&self) -> (r: String)
        ensures
            r@ == "/api/v1/virtualmachines"@,
    {
        String::from_str("/api/v1/virtualmachines")
    }

    /// The path under which the server hands out the guest `name`.
    pub fn get_path(&self, name: &str) -> (r: String)
        ensures
            r@ == "/api/v1/virtualmachines/"@ + name@,
    {
        let mut r = String::from_str("/api/v1/virtualmachines/");
        r.append(name);
        r
    }

    /// Reads an answer: the body of an answer of success, and the status
    /// with the body of any other.
    pub fn http_get(status: u16, body: String) -> (r: Result<String, Error>)
        ensures
            200 <= status < 300 ==> r == Ok::<String, Error>(body),
            !(200 <= status < 300) ==> r == Err::<String, Error>(
                Error::HttpNoSuccess(status, body),
            ),
    {
        if 200 <= status && status < 300 {
            Ok(body)
        } else {
            Err(Error::HttpNoSuccess(status, body))
        }
    }
}

} // verus!
