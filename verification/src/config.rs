//! The static configuration of a node.

use vstd::prelude::*;
use vstd::utf8::encode_utf8;
use crate::codec::connect::{valid_client_id, ConnectFields, ConnectRequest, MAX_CLIENT_ID_LEN};
use crate::codec::error::EncodeError;
use crate::link::Credentials;

verus! {

/// The keep-alive interval a node asks for, in seconds.
pub const KEEP_ALIVE: u16 = 120;

/// What a node is configured with. Every option has a default.
#[derive(Clone, Copy, Debug, PartialEq, Eq)]
pub struct Config {
    /// The name of the wireless network.
    pub wifi_ssid: &'static str,
    /// The passphrase of the wireless network.
    pub wifi_pass: &'static str,
    /// Host and port of the broker.
    pub broker_url: &'static str,
    /// The client identifier to connect with.
    pub mqtt_client_id: &'static str,
    /// The topic to publish measurements to.
    pub topic_name: &'static str,
}

impl Default for Config {
    /// Every option empty, but for the topic, which is `measurements`.
    fn default() -> (r: Config)
        ensures
            r.wifi_ssid@ == Seq::<char>::empty(),
            r.wifi_pass@ == Seq::<char>::empty(),
            r.broker_url@ == Seq::<char>::empty(),
            r.mqtt_client_id@ == Seq::<char>::empty(),
            r.topic_name@ == "measurements"@,
    {
        proof {
            reveal_strlit("");
        }
        let empty = "";
        assert(empty@ =~= Seq::<char>::empty());
        Config {
            wifi_ssid: empty,
            wifi_pass: empty,
            broker_url: empty,
            mqtt_client_id: empty,
            topic_name: "measurements",
        }
    }
}

impl Config {
    /// The network to join.
    pub fn credentials(&self) -> (r: Credentials)
        ensures
            r.ssid@ == self.wifi_ssid@,
            r.passphrase@ == self.wifi_pass@,
    {
        Credentials { ssid: self.wifi_ssid.to_owned(), passphrase: self.wifi_pass.to_owned() }
    }

    /// The connection request of this node: its client identifier, a clean
    /// session, and the keep-alive of `KEEP_ALIVE` seconds. Fails where the
    /// client identifier is not a valid one.
    pub fn identity(&self) -> (r: Result<ConnectRequest, EncodeError>)
        ensures
            encode_utf8(self.mqtt_client_id@).len() == 0 ==> r == Err::<
                ConnectRequest,
                EncodeError,
            >(EncodeError::EmptyClientId),
            encode_utf8(self.mqtt_client_id@).len() > MAX_CLIENT_ID_LEN ==> r == Err::<
                ConnectRequest,
                EncodeError,
            >(EncodeError::ClientIdTooLong),
            valid_client_id(self.mqtt_client_id@) ==> r is Ok && r->Ok_0@ == (ConnectFields {
                client_id: self.mqtt_client_id@,
                clean_session: true,
                keep_alive: KEEP_ALIVE,
            }),
    {
        ConnectRequest::new(self.mqtt_client_id, true, KEEP_ALIVE)
    }
}

} // verus!
