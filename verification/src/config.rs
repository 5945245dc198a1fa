//! The configuration of a subscription.
//!
//! A configuration is made for one kind of subscription and keeps that kind.
//! Each setter first checks that its field belongs to the kind, and then
//! stores the value and appends it to the path. A setter never looks at what
//! the path already holds: a field that is given a second time is appended a
//! second time, and the path is then no longer the canonical one. So each
//! field is meant to be given once, the contract before the event name;
//! [`Config::is_canonical`] tells whether the path is still the canonical
//! one.

use vstd::prelude::*;
use vstd::string::*;
use crate::error::{SSEError, SSEResult};
use crate::path::{ConfigType, resolve, root};

verus! {

/// What a configuration holds, as plain values.
#[verifier::ext_equal]
pub struct ConfigView {
    /// The kind of subscription.
    pub kind: ConfigType,
    /// The address that the configuration was made with.
    pub base_url: Seq<char>,
    /// The stream to listen to, of an activity subscription.
    pub stream_id: Option<Seq<char>>,
    /// The contract to listen to, of an event subscription.
    pub contract: Option<Seq<char>>,
    /// The event to listen for, of an event subscription with a contract.
    pub event: Option<Seq<char>>,
    /// The path that a subscription is opened at.
    pub url: Seq<char>,
}

impl ConfigView {
    /// The configuration of `kind` at `base` with no field given.
    pub open spec fn fresh(kind: ConfigType, base: Seq<char>) -> ConfigView {
        ConfigView {
            kind,
            base_url: base,
            stream_id: None,
            contract: None,
            event: None,
            url: root(kind, base),
        }
    }

    /// Only fields of the configuration's kind are present, and an event
    /// name only beside a contract.
    pub open spec fn legal(self) -> bool {
        &&& self.kind == ConfigType::Activity ==> self.contract is None && self.event is None
        &&& self.kind == ConfigType::Event ==> self.stream_id is None
        &&& self.event is Some ==> self.contract is Some
    }

    /// What holds of every configuration, whatever was called on it.
    pub open spec fn wf(self) -> bool {
        &&& self.legal()
        &&& root(self.kind, self.base_url).is_prefix_of(self.url)
    }

    /// The path is the one that the grammar gives for the fields.
    pub open spec fn canonical(self) -> bool {
        self.url == resolve(self.kind, self.base_url, self.stream_id, self.contract, self.event)
    }

    /// What `set_stream_id` makes of a configuration.
    pub open spec fn with_stream_id(self, id: Seq<char>) -> Result<ConfigView, SSEError> {
        if self.kind != ConfigType::Activity {
            Err(SSEError::IncompatibleConfig)
        } else {
            Ok(ConfigView { stream_id: Some(id), url: self.url + id, ..self })
        }
    }

    /// What `set_contract` makes of a configuration.
    pub open spec fn with_contract(self, contract: Seq<char>) -> Result<ConfigView, SSEError> {
        if self.kind != ConfigType::Event {
            Err(SSEError::IncompatibleConfig)
        } else {
            Ok(ConfigView { contract: Some(contract), url: self.url + contract, ..self })
        }
    }

    /// What `set_event` makes of a configuration.
    pub open spec fn with_event(self, event: Seq<char>) -> Result<ConfigView, SSEError> {
        if self.kind != ConfigType::Event {
            Err(SSEError::IncompatibleConfig)
        } else if self.contract is None {
            Err(SSEError::ContractNotSet)
        } else {
            Ok(ConfigView { event: Some(event), url: self.url + event, ..self })
        }
    }
}

/// What to subscribe to, and the path that follows from it.
pub struct Config {
    base_url: String,
    url: String,
    config_type: ConfigType,
    stream_id: Option<String>,
    contract: Option<String>,
    event: Option<String>,
}

/// The characters of an optional string.
spec fn text(field: Option<String>) -> Option<Seq<char>> {
    match field {
        Some(s) => Some(s@),
        None => None,
    }
}

/// The characters of an optional string slice.
pub open spec fn chars(field: Option<&str>) -> Option<Seq<char>> {
    match field {
        Some(s) => Some(s@),
        None => None,
    }
}

impl View for Config {
    type V = ConfigView;

    closed spec fn view(&self) -> ConfigView {
        ConfigView {
            kind: self.config_type,
            base_url: self.base_url@,
            stream_id: text(self.stream_id),
            contract: text(self.contract),
            event: text(self.event),
            url: self.url@,
        }
    }
}

impl Config {
    #[verifier::type_invariant]
    spec fn inv(&self) -> bool {
        self@.wf()
    }

    /// A configuration that listens for the creation and update of streams
    /// at `url`: of all streams, until a stream id is given.
    pub fn activity(url: &str) -> (config: Config)
        ensures
            config@ == ConfigView::fresh(ConfigType::Activity, url@),
    {
        Config {
            base_url: String::from_str(url),
            url: String::from_str(url).concat("/api/activity/subscribe/"),
            config_type: ConfigType::Activity,
            stream_id: None,
            contract: None,
            event: None,
        }
    }

    /// A configuration that listens for the events of contracts at `url`: of
    /// all contracts, until a contract is given.
    pub fn event(url: &str) -> (config: Config)
        ensures
            config@ == ConfigView::fresh(ConfigType::Event, url@),
    {
        Config {
            base_url: String::from_str(url),
            url: String::from_str(url).concat("/api/events/"),
            config_type: ConfigType::Event,
            stream_id: None,
            contract: None,
            event: None,
        }
    }

    /// Listens to one stream. Refused on an event configuration, which is
    /// then left as it was.
    pub fn set_stream_id(&mut self, id: &str) -> (res: SSEResult<&mut Self>)
        ensures
            match old(self)@.with_stream_id(id@) {
                Ok(next) => res matches Ok(config) && config@ == next
                    && *final(config) == *final(self),
                Err(e) => res matches Err(error) && error == e && *final(self) == *old(self),
            },
    {
        proof {
            use_type_invariant(&*self);
        }
        match self.config_type {
            ConfigType::Activity => {},
            ConfigType::Event => {
                return Err(SSEError::IncompatibleConfig);
            },
        }
        self.stream_id = Some(String::from_str(id));
        self.url = self.url.clone().concat(id);
        Ok(self)
    }

    /// Listens to the events of one contract. Refused on an activity
    /// configuration, which is then left as it was.
    pub fn set_contract(&mut self, contract: &str) -> (res: SSEResult<&mut Self>)
        ensures
            match old(self)@.with_contract(contract@) {
                Ok(next) => res matches Ok(config) && config@ == next
                    && *final(config) == *final(self),
                Err(e) => res matches Err(error) && error == e && *final(self) == *old(self),
            },
    {
        proof {
            use_type_invariant(&*self);
        }
        match self.config_type {
            ConfigType::Event => {},
            ConfigType::Activity => {
                return Err(SSEError::IncompatibleConfig);
            },
        }
        self.contract = Some(String::from_str(contract));
        self.url = self.url.clone().concat(contract);
        Ok(self)
    }

    /// Listens for one event of the contract. Refused on an activity
    /// configuration, and on one that has no contract yet; the configuration
    /// is then left as it was.
    pub fn set_event(&mut self, event: &str) -> (res: SSEResult<&mut Self>)
        ensures
            match old(self)@.with_event(event@) {
                Ok(next) => res matches Ok(config) && config@ == next
                    && *final(config) == *final(self),
                Err(e) => res matches Err(error) && error == e && *final(self) == *old(self),
            },
    {
        proof {
            use_type_invariant(&*self);
        }
        match self.config_type {
            ConfigType::Event => {},
            ConfigType::Activity => {
                return Err(SSEError::IncompatibleConfig);
            },
        }
        if self.contract.is_none() {
            return Err(SSEError::ContractNotSet);
        }
        self.event = Some(String::from_str(event));
        self.url = self.url.clone().concat(event);
        Ok(self)
    }

    /// The path that a subscription is opened at. It starts with the base
    /// address and the prefix of the kind, as the invariant says.
    pub fn get_url(&self) -> (url: &str)
        ensures
            url@ == self@.url,
            self@.wf(),
    {
        proof {
            use_type_invariant(self);
        }
        self.url.as_str()
    }

    /// Whether the path is the one that the grammar gives for the fields
    /// as they stand. It is as long as each field was given at most once,
    /// and no contract after an event name.
    pub fn is_canonical(&self) -> (res: bool)
        ensures
            res == self@.canonical(),
    {
        let root = self.base_url.clone();
        let expected = match self.config_type {
            ConfigType::Activity => {
                let root = root.concat("/api/activity/subscribe/");
                match &self.stream_id {
                    Some(id) => root.concat(id.as_str()),
                    None => root,
                }
            },
            ConfigType::Event => {
                let root = root.concat("/api/events/");
                let with_contract = match &self.contract {
                    Some(contract) => root.concat(contract.as_str()),
                    None => root,
                };
                match &self.event {
                    Some(event) => with_contract.concat(event.as_str()),
                    None => with_contract,
                }
            },
        };
        assert(expected@ =~= resolve(
            self@.kind,
            self@.base_url,
            self@.stream_id,
            self@.contract,
            self@.event,
        ));
        expected == self.url
    }

    /// The kind of subscription.
    pub fn get_type(&self) -> (kind: ConfigType)
        ensures
            kind == self@.kind,
    {
        self.config_type
    }

    /// The address that the configuration was made with.
    pub fn get_base_url(&self) -> (base: &str)
        ensures
            base@ == self@.base_url,
    {
        self.base_url.as_str()
    }

    /// The stream id that was given last, if any was.
    pub fn get_stream_id(&self) -> (id: Option<&str>)
        ensures
            chars(id) == self@.stream_id,
    {
        match &self.stream_id {
            Some(id) => Some(id.as_str()),
            None => None,
        }
    }

    /// The contract that was given last, if any was.
    pub fn get_contract(&self) -> (contract: Option<&str>)
        ensures
            chars(contract) == self@.contract,
    {
        match &self.contract {
            Some(contract) => Some(contract.as_str()),
            None => None,
        }
    }

    /// The event name that was given last, if any was.
    pub fn get_event(&self) -> (event: Option<&str>)
        ensures
            chars(event) == self@.event,
    {
        match &self.event {
            Some(event) => Some(event.as_str()),
            None => None,
        }
    }
}

} // verus!
