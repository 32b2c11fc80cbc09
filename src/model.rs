use vstd::prelude::*;
use crate::scalars::{Elapsed, Url, UtcTime, Uuid, url_wf, utc_wf};

verus! {

/// Why a tree could not be read as a value of the model.
#[derive(Clone, Copy, Debug, PartialEq, Eq, Structural)]
pub enum DecodeError {
    /// The input was not well-formed structured text.
    Syntax,
    /// A required field is absent.
    MissingField,
    /// A field holds a value of the wrong kind, or text its type cannot parse.
    TypeMismatch,
    /// A field-level codec rejected its wire text.
    CustomCodec,
}

/// The kind of a request; a closed set.
#[derive(Clone, Copy, Debug, PartialEq, Eq, Structural)]
pub enum RequestType {
    Success,
}

#[derive(Clone, Debug)]
pub struct User {
    pub name: String,
    pub email: String,
    pub birthdate: String,
}

pub struct UserV {
    pub name: Seq<char>,
    pub email: Seq<char>,
    pub birthdate: Seq<char>,
}

impl View for User {
    type V = UserV;

    open spec fn view(&self) -> UserV {
        UserV { name: self.name@, email: self.email@, birthdate: self.birthdate@ }
    }
}

#[derive(Clone, Debug)]
pub struct PublicTariff {
    pub id: u32,
    pub price: u32,
    pub duration: Elapsed,
    pub description: String,
}

pub struct PublicTariffV {
    pub id: u32,
    pub price: u32,
    pub duration: Elapsed,
    pub description: Seq<char>,
}

impl View for PublicTariff {
    type V = PublicTariffV;

    open spec fn view(&self) -> PublicTariffV {
        PublicTariffV {
            id: self.id,
            price: self.price,
            duration: self.duration,
            description: self.description@,
        }
    }
}

impl PublicTariffV {
    pub open spec fn wf(self) -> bool {
        self.duration.reads_back()
    }
}

#[derive(Clone, Debug)]
pub struct PrivateTariff {
    pub client_price: u32,
    pub duration: Elapsed,
    pub description: String,
}

pub struct PrivateTariffV {
    pub client_price: u32,
    pub duration: Elapsed,
    pub description: Seq<char>,
}

impl View for PrivateTariff {
    type V = PrivateTariffV;

    open spec fn view(&self) -> PrivateTariffV {
        PrivateTariffV {
            client_price: self.client_price,
            duration: self.duration,
            description: self.description@,
        }
    }
}

impl PrivateTariffV {
    pub open spec fn wf(self) -> bool {
        self.duration.reads_back()
    }
}

#[derive(Clone, Debug)]
pub struct Stream {
    pub user_id: Uuid,
    pub is_private: bool,
    pub settings: u32,
    pub shard_url: Url,
    pub public_tariff: PublicTariff,
    pub private_tariff: PrivateTariff,
}

pub struct StreamV {
    pub user_id: Uuid,
    pub is_private: bool,
    pub settings: u32,
    pub shard_url: Seq<char>,
    pub public_tariff: PublicTariffV,
    pub private_tariff: PrivateTariffV,
}

impl View for Stream {
    type V = StreamV;

    open spec fn view(&self) -> StreamV {
        StreamV {
            user_id: self.user_id,
            is_private: self.is_private,
            settings: self.settings,
            shard_url: self.shard_url@,
            public_tariff: self.public_tariff@,
            private_tariff: self.private_tariff@,
        }
    }
}

impl StreamV {
    pub open spec fn wf(self) -> bool {
        &&& self.user_id.reads_back()
        &&& url_wf(self.shard_url)
        &&& self.public_tariff.wf()
        &&& self.private_tariff.wf()
    }
}

#[derive(Clone, Debug)]
pub struct Gift {
    pub id: u32,
    pub price: u32,
    pub description: String,
}

pub struct GiftV {
    pub id: u32,
    pub price: u32,
    pub description: Seq<char>,
}

impl View for Gift {
    type V = GiftV;

    open spec fn view(&self) -> GiftV {
        GiftV { id: self.id, price: self.price, description: self.description@ }
    }
}

#[derive(Clone, Debug)]
pub struct DebugInfo {
    pub duration: Elapsed,
    pub at: UtcTime,
}

pub struct DebugInfoV {
    pub duration: Elapsed,
    pub at: Seq<char>,
}

impl View for DebugInfo {
    type V = DebugInfoV;

    open spec fn view(&self) -> DebugInfoV {
        DebugInfoV { duration: self.duration, at: self.at@ }
    }
}

impl DebugInfoV {
    pub open spec fn wf(self) -> bool {
        self.duration.reads_back() && utc_wf(self.at)
    }
}

#[derive(Clone, Debug)]
pub struct Request {
    pub request_type: RequestType,
    pub stream: Stream,
    pub gifts: Vec<Gift>,
    pub debug: DebugInfo,
}

pub struct RequestV {
    pub request_type: RequestType,
    pub stream: StreamV,
    pub gifts: Seq<GiftV>,
    pub debug: DebugInfoV,
}

pub open spec fn gifts_view(gifts: Seq<Gift>) -> Seq<GiftV> {
    gifts.map_values(|g: Gift| g@)
}

impl View for Request {
    type V = RequestV;

    open spec fn view(&self) -> RequestV {
        RequestV {
            request_type: self.request_type,
            stream: self.stream@,
            gifts: gifts_view(self.gifts@),
            debug: self.debug@,
        }
    }
}

impl RequestV {
    pub open spec fn wf(self) -> bool {
        self.stream.wf() && self.debug.wf()
    }
}

/// A named event whose date travels as tagged text.
#[derive(Clone, Debug)]
pub struct Event {
    pub name: String,
    pub date: String,
}

pub struct EventV {
    pub name: Seq<char>,
    pub date: Seq<char>,
}

impl View for Event {
    type V = EventV;

    open spec fn view(&self) -> EventV {
        EventV { name: self.name@, date: self.date@ }
    }
}

} // verus!
