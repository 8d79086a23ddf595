//! Server and client configuration values.
use crate::text::{dec_digits, str_eq, u64_to_string};
use vstd::prelude::*;

verus! {

/// What the server is started with.
#[derive(Debug, Clone)]
pub struct ServerConfig {
    pub address: String,
    pub buffer_size: usize,
    pub max_clients: usize,
}

impl ServerConfig {
    /// The stock configuration: the local default port, a 1 KiB line
    /// buffer, and bus capacity for 32 clients.
    pub fn default() -> (r: ServerConfig)
        ensures
            r.address@ == "localhost:4556"@,
            r.buffer_size == 1024,
            r.max_clients == 32,
    {
        ServerConfig {
            address: String::from_str("localhost:4556"),
            buffer_size: 1024,
            max_clients: 32,
        }
    }
}

/// What the client is started with; the command line fills it in.
#[derive(Debug, Clone)]
pub struct ClientConfig {
    pub name: Option<String>,
    pub room: String,
    pub password: String,
    pub color: String,
    pub server: String,
}

/// The colour names a client may ask for.
pub open spec fn valid_color_name(c: Seq<char>) -> bool {
    ||| c == "red"@
    ||| c == "green"@
    ||| c == "blue"@
    ||| c == "yellow"@
    ||| c == "magenta"@
    ||| c == "cyan"@
    ||| c == "white"@
}

impl ClientConfig {
    /// The name shown for this client: the configured one, or the
    /// anonymous default derived from the accept-order counter.
    pub fn get_display_name(&self, anonymous_id: u32) -> (r: String)
        ensures
            r@ == match self.name {
                Some(n) => n@,
                None => "Anonymous#"@ + dec_digits(anonymous_id as nat),
            },
    {
        match &self.name {
            Some(name) => name.clone(),
            None => {
                let mut d = String::from_str("Anonymous#");
                let digits = u64_to_string(anonymous_id as u64);
                d.append(digits.as_str());
                d
            },
        }
    }

    /// Checks the configuration: a configured name must have 2 to 20
    /// characters, and the colour must be one of the fixed palette.
    pub fn validate(&self) -> (r: Result<(), String>)
        ensures
            r is Ok <==> (match self.name {
                Some(n) => 2 <= n@.len() <= 20,
                None => true,
            }) && valid_color_name(self.color@),
            (match self.name {
                Some(n) => !(2 <= n@.len() <= 20),
                None => false,
            }) ==> (r matches Err(e) && e@ == "Name must be between 2 and 20 characters."@),
            (match self.name {
                Some(n) => 2 <= n@.len() <= 20,
                None => true,
            }) && !valid_color_name(self.color@) ==> (r matches Err(e) && e@
                == "Invalid color. Use [\"red\", \"green\", \"blue\", \"yellow\", \"magenta\", \"cyan\", \"white\"]"@),
    {
        match &self.name {
            Some(name) => {
                let len = name.as_str().unicode_len();
                if len < 2 || len > 20 {
                    return Err(String::from_str("Name must be between 2 and 20 characters."));
                }
            },
            None => {},
        }
        let c = self.color.as_str();
        if str_eq(c, "red") || str_eq(c, "green") || str_eq(c, "blue") || str_eq(c, "yellow")
            || str_eq(c, "magenta") || str_eq(c, "cyan") || str_eq(c, "white") {
            Ok(())
        } else {
            Err(
                String::from_str(
                    "Invalid color. Use [\"red\", \"green\", \"blue\", \"yellow\", \"magenta\", \"cyan\", \"white\"]",
                ),
            )
        }
    }
}

} // verus!
