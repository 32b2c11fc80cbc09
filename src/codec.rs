use vstd::prelude::*;
use crate::fields::{
    bool_of, elapsed_of, model_of, read_bool, read_elapsed, read_string, read_u32, read_url,
    read_utc, read_uuid, str_of, u32_of, url_of, utc_of, uuid_of,
};
use crate::model::{
    DebugInfo, DebugInfoV, DecodeError, Event, EventV, Gift, GiftV, PrivateTariff, PrivateTariffV,
    PublicTariff, PublicTariffV, Request, RequestV, Stream, StreamV, User, UserV, gifts_view,
};
use crate::scalars::{elapsed_parsed, duration_text, url_serialized, uuid_parsed, uuid_text};
use crate::tagged::{
    decode_date, encode_date, lemma_date_round_trip, lemma_request_type_round_trip, request_type_of,
    request_type_tag, tag_date, untag_date,
};
use crate::tree::{
    Tree, TreeV, entries_view, get_entry, lemma_array_view, lemma_lookup_absent, lemma_lookup_first,
    lemma_object_view, lookup, text,
};

verus! {

// ---- Gift ----

/// The wire tree of a gift.
pub open spec fn gift_tree(g: GiftV) -> TreeV {
    TreeV::Object(
        seq![
            ("id"@, TreeV::Int(g.id as int)),
            ("price"@, TreeV::Int(g.price as int)),
            ("description"@, TreeV::Str(g.description)),
        ],
    )
}

/// The gift that a wire tree holds.
pub open spec fn gift_of(t: TreeV) -> Result<GiftV, DecodeError> {
    match t {
        TreeV::Object(f) => {
            let id = u32_of(lookup(f, "id"@));
            let price = u32_of(lookup(f, "price"@));
            let description = str_of(lookup(f, "description"@));
            if id is Err {
                Err(id->Err_0)
            } else if price is Err {
                Err(price->Err_0)
            } else if description is Err {
                Err(description->Err_0)
            } else {
                Ok(GiftV { id: id->Ok_0, price: price->Ok_0, description: description->Ok_0 })
            }
        },
        _ => Err(DecodeError::TypeMismatch),
    }
}

pub fn encode_gift(g: &Gift) -> (r: Tree)
    ensures
        r@ == gift_tree(g@),
{
    let mut f: Vec<(String, Tree)> = Vec::new();
    f.push((text("id"), Tree::Int(g.id as i128)));
    f.push((text("price"), Tree::Int(g.price as i128)));
    f.push((text("description"), Tree::Str(g.description.clone())));
    proof {
        lemma_object_view(f);
        assert(entries_view(f@) =~= gift_tree(g@)->Object_0);
    }
    Tree::Object(f)
}

pub fn decode_gift(t: &Tree) -> (r: Result<Gift, DecodeError>)
    ensures
        model_of(r) == gift_of(t@),
{
    match t {
        Tree::Object(f) => {
            proof {
                lemma_object_view(*f);
            }
            let id = match read_u32(f, "id") {
                Ok(v) => v,
                Err(e) => return Err(e),
            };
            let price = match read_u32(f, "price") {
                Ok(v) => v,
                Err(e) => return Err(e),
            };
            let description = match read_string(f, "description") {
                Ok(v) => v,
                Err(e) => return Err(e),
            };
            Ok(Gift { id, price, description })
        },
        _ => Err(DecodeError::TypeMismatch),
    }
}

/// Decoding the tree written for a gift gives the gift back.
pub proof fn lemma_gift_round_trip(g: GiftV)
    ensures
        gift_of(gift_tree(g)) == Ok::<GiftV, DecodeError>(g),
{
    let f = gift_tree(g)->Object_0;
    reveal_strlit("id");
    reveal_strlit("price");
    reveal_strlit("description");
    assert(f[0].0 == "id"@ && f[1].0 == "price"@ && f[2].0 == "description"@);
    lemma_lookup_first(f, 0, "id"@);
    lemma_lookup_first(f, 1, "price"@);
    lemma_lookup_first(f, 2, "description"@);
}


// ---- User ----

/// The wire tree of a user.
pub open spec fn user_tree(u: UserV) -> TreeV {
    TreeV::Object(
        seq![
            ("name"@, TreeV::Str(u.name)),
            ("email"@, TreeV::Str(u.email)),
            ("birthdate"@, TreeV::Str(u.birthdate)),
        ],
    )
}

/// The user that a wire tree holds.
pub open spec fn user_of(t: TreeV) -> Result<UserV, DecodeError> {
    match t {
        TreeV::Object(f) => {
            let name = str_of(lookup(f, "name"@));
            let email = str_of(lookup(f, "email"@));
            let birthdate = str_of(lookup(f, "birthdate"@));
            if name is Err {
                Err(name->Err_0)
            } else if email is Err {
                Err(email->Err_0)
            } else if birthdate is Err {
                Err(birthdate->Err_0)
            } else {
                Ok(UserV { name: name->Ok_0, email: email->Ok_0, birthdate: birthdate->Ok_0 })
            }
        },
        _ => Err(DecodeError::TypeMismatch),
    }
}

pub fn encode_user(u: &User) -> (r: Tree)
    ensures
        r@ == user_tree(u@),
{
    let mut f: Vec<(String, Tree)> = Vec::new();
    f.push((text("name"), Tree::Str(u.name.clone())));
    f.push((text("email"), Tree::Str(u.email.clone())));
    f.push((text("birthdate"), Tree::Str(u.birthdate.clone())));
    proof {
        lemma_object_view(f);
        assert(entries_view(f@) =~= user_tree(u@)->Object_0);
    }
    Tree::Object(f)
}

pub fn decode_user(t: &Tree) -> (r: Result<User, DecodeError>)
    ensures
        model_of(r) == user_of(t@),
{
    match t {
        Tree::Object(f) => {
            proof {
                lemma_object_view(*f);
            }
            let name = match read_string(f, "name") {
                Ok(v) => v,
                Err(e) => return Err(e),
            };
            let email = match read_string(f, "email") {
                Ok(v) => v,
                Err(e) => return Err(e),
            };
            let birthdate = match read_string(f, "birthdate") {
                Ok(v) => v,
                Err(e) => return Err(e),
            };
            Ok(User { name, email, birthdate })
        },
        _ => Err(DecodeError::TypeMismatch),
    }
}

/// Decoding the tree written for a user gives the user back.
pub proof fn lemma_user_round_trip(u: UserV)
    ensures
        user_of(user_tree(u)) == Ok::<UserV, DecodeError>(u),
{
    let f = user_tree(u)->Object_0;
    reveal_strlit("name");
    reveal_strlit("email");
    reveal_strlit("birthdate");
    assert(f[0].0 == "name"@ && f[1].0 == "email"@ && f[2].0 == "birthdate"@);
    lemma_lookup_first(f, 0, "name"@);
    lemma_lookup_first(f, 1, "email"@);
    lemma_lookup_first(f, 2, "birthdate"@);
}

// ---- Tariffs ----

/// The wire text of a duration.
pub open spec fn elapsed_tree(d: crate::scalars::Elapsed) -> TreeV {
    TreeV::Str(duration_text(d.secs, d.nanos))
}

/// The wire tree of a public tariff.
pub open spec fn public_tariff_tree(p: PublicTariffV) -> TreeV {
    TreeV::Object(
        seq![
            ("id"@, TreeV::Int(p.id as int)),
            ("price"@, TreeV::Int(p.price as int)),
            ("duration"@, elapsed_tree(p.duration)),
            ("description"@, TreeV::Str(p.description)),
        ],
    )
}

/// The public tariff that a wire tree holds.
pub open spec fn public_tariff_of(t: TreeV) -> Result<PublicTariffV, DecodeError> {
    match t {
        TreeV::Object(f) => {
            let id = u32_of(lookup(f, "id"@));
            let price = u32_of(lookup(f, "price"@));
            let duration = elapsed_of(lookup(f, "duration"@));
            let description = str_of(lookup(f, "description"@));
            if id is Err {
                Err(id->Err_0)
            } else if price is Err {
                Err(price->Err_0)
            } else if duration is Err {
                Err(duration->Err_0)
            } else if description is Err {
                Err(description->Err_0)
            } else {
                Ok(
                    PublicTariffV {
                        id: id->Ok_0,
                        price: price->Ok_0,
                        duration: duration->Ok_0,
                        description: description->Ok_0,
                    },
                )
            }
        },
        _ => Err(DecodeError::TypeMismatch),
    }
}

pub fn encode_public_tariff(p: &PublicTariff) -> (r: Tree)
    requires
        p.duration.wf(),
    ensures
        r@ == public_tariff_tree(p@),
{
    let mut f: Vec<(String, Tree)> = Vec::new();
    f.push((text("id"), Tree::Int(p.id as i128)));
    f.push((text("price"), Tree::Int(p.price as i128)));
    f.push((text("duration"), Tree::Str(p.duration.to_text())));
    f.push((text("description"), Tree::Str(p.description.clone())));
    proof {
        lemma_object_view(f);
        assert(entries_view(f@) =~= public_tariff_tree(p@)->Object_0);
    }
    Tree::Object(f)
}

pub fn decode_public_tariff(t: &Tree) -> (r: Result<PublicTariff, DecodeError>)
    ensures
        model_of(r) == public_tariff_of(t@),
        r matches Ok(p) ==> p.duration.wf(),
{
    match t {
        Tree::Object(f) => {
            proof {
                lemma_object_view(*f);
            }
            let id = match read_u32(f, "id") {
                Ok(v) => v,
                Err(e) => return Err(e),
            };
            let price = match read_u32(f, "price") {
                Ok(v) => v,
                Err(e) => return Err(e),
            };
            let duration = match read_elapsed(f, "duration") {
                Ok(v) => v,
                Err(e) => return Err(e),
            };
            let description = match read_string(f, "description") {
                Ok(v) => v,
                Err(e) => return Err(e),
            };
            Ok(PublicTariff { id, price, duration, description })
        },
        _ => Err(DecodeError::TypeMismatch),
    }
}

/// Decoding the tree written for a valid public tariff gives it back.
pub proof fn lemma_public_tariff_round_trip(p: PublicTariffV)
    requires
        p.wf(),
    ensures
        public_tariff_of(public_tariff_tree(p)) == Ok::<PublicTariffV, DecodeError>(p),
{
    let f = public_tariff_tree(p)->Object_0;
    reveal_strlit("id");
    reveal_strlit("price");
    reveal_strlit("duration");
    reveal_strlit("description");
    assert(f[0].0 == "id"@ && f[1].0 == "price"@ && f[2].0 == "duration"@ && f[3].0
        == "description"@);
    lemma_lookup_first(f, 0, "id"@);
    lemma_lookup_first(f, 1, "price"@);
    lemma_lookup_first(f, 2, "duration"@);
    lemma_lookup_first(f, 3, "description"@);
}

/// The wire tree of a private tariff.
pub open spec fn private_tariff_tree(p: PrivateTariffV) -> TreeV {
    TreeV::Object(
        seq![
            ("client_price"@, TreeV::Int(p.client_price as int)),
            ("duration"@, elapsed_tree(p.duration)),
            ("description"@, TreeV::Str(p.description)),
        ],
    )
}

/// The private tariff that a wire tree holds.
pub open spec fn private_tariff_of(t: TreeV) -> Result<PrivateTariffV, DecodeError> {
    match t {
        TreeV::Object(f) => {
            let client_price = u32_of(lookup(f, "client_price"@));
            let duration = elapsed_of(lookup(f, "duration"@));
            let description = str_of(lookup(f, "description"@));
            if client_price is Err {
                Err(client_price->Err_0)
            } else if duration is Err {
                Err(duration->Err_0)
            } else if description is Err {
                Err(description->Err_0)
            } else {
                Ok(
                    PrivateTariffV {
                        client_price: client_price->Ok_0,
                        duration: duration->Ok_0,
                        description: description->Ok_0,
                    },
                )
            }
        },
        _ => Err(DecodeError::TypeMismatch),
    }
}

pub fn encode_private_tariff(p: &PrivateTariff) -> (r: Tree)
    requires
        p.duration.wf(),
    ensures
        r@ == private_tariff_tree(p@),
{
    let mut f: Vec<(String, Tree)> = Vec::new();
    f.push((text("client_price"), Tree::Int(p.client_price as i128)));
    f.push((text("duration"), Tree::Str(p.duration.to_text())));
    f.push((text("description"), Tree::Str(p.description.clone())));
    proof {
        lemma_object_view(f);
        assert(entries_view(f@) =~= private_tariff_tree(p@)->Object_0);
    }
    Tree::Object(f)
}

pub fn decode_private_tariff(t: &Tree) -> (r: Result<PrivateTariff, DecodeError>)
    ensures
        model_of(r) == private_tariff_of(t@),
        r matches Ok(p) ==> p.duration.wf(),
{
    match t {
        Tree::Object(f) => {
            proof {
                lemma_object_view(*f);
            }
            let client_price = match read_u32(f, "client_price") {
                Ok(v) => v,
                Err(e) => return Err(e),
            };
            let duration = match read_elapsed(f, "duration") {
                Ok(v) => v,
                Err(e) => return Err(e),
            };
            let description = match read_string(f, "description") {
                Ok(v) => v,
                Err(e) => return Err(e),
            };
            Ok(PrivateTariff { client_price, duration, description })
        },
        _ => Err(DecodeError::TypeMismatch),
    }
}

/// Decoding the tree written for a valid private tariff gives it back.
pub proof fn lemma_private_tariff_round_trip(p: PrivateTariffV)
    requires
        p.wf(),
    ensures
        private_tariff_of(private_tariff_tree(p)) == Ok::<PrivateTariffV, DecodeError>(p),
{
    let f = private_tariff_tree(p)->Object_0;
    reveal_strlit("client_price");
    reveal_strlit("duration");
    reveal_strlit("description");
    assert(f[0].0 == "client_price"@ && f[1].0 == "duration"@ && f[2].0 == "description"@);
    lemma_lookup_first(f, 0, "client_price"@);
    lemma_lookup_first(f, 1, "duration"@);
    lemma_lookup_first(f, 2, "description"@);
}

// ---- Debug information ----

/// The wire tree of debug information.
pub open spec fn debug_tree(d: DebugInfoV) -> TreeV {
    TreeV::Object(seq![("duration"@, elapsed_tree(d.duration)), ("at"@, TreeV::Str(d.at))])
}

/// The debug information that a wire tree holds.
pub open spec fn debug_of(t: TreeV) -> Result<DebugInfoV, DecodeError> {
    match t {
        TreeV::Object(f) => {
            let duration = elapsed_of(lookup(f, "duration"@));
            let at = utc_of(lookup(f, "at"@));
            if duration is Err {
                Err(duration->Err_0)
            } else if at is Err {
                Err(at->Err_0)
            } else {
                Ok(DebugInfoV { duration: duration->Ok_0, at: at->Ok_0 })
            }
        },
        _ => Err(DecodeError::TypeMismatch),
    }
}

pub fn encode_debug(d: &DebugInfo) -> (r: Tree)
    requires
        d.duration.wf(),
    ensures
        r@ == debug_tree(d@),
{
    let mut f: Vec<(String, Tree)> = Vec::new();
    f.push((text("duration"), Tree::Str(d.duration.to_text())));
    f.push((text("at"), Tree::Str(d.at.text.clone())));
    proof {
        lemma_object_view(f);
        assert(entries_view(f@) =~= debug_tree(d@)->Object_0);
    }
    Tree::Object(f)
}

pub fn decode_debug(t: &Tree) -> (r: Result<DebugInfo, DecodeError>)
    ensures
        model_of(r) == debug_of(t@),
        r matches Ok(d) ==> d.duration.wf(),
{
    match t {
        Tree::Object(f) => {
            proof {
                lemma_object_view(*f);
            }
            let duration = match read_elapsed(f, "duration") {
                Ok(v) => v,
                Err(e) => return Err(e),
            };
            let at = match read_utc(f, "at") {
                Ok(v) => v,
                Err(e) => return Err(e),
            };
            Ok(DebugInfo { duration, at })
        },
        _ => Err(DecodeError::TypeMismatch),
    }
}

/// Decoding the tree written for valid debug information gives it back.
pub proof fn lemma_debug_round_trip(d: DebugInfoV)
    requires
        d.wf(),
    ensures
        debug_of(debug_tree(d)) == Ok::<DebugInfoV, DecodeError>(d),
{
    let f = debug_tree(d)->Object_0;
    reveal_strlit("duration");
    reveal_strlit("at");
    assert(f[0].0 == "duration"@ && f[1].0 == "at"@);
    lemma_lookup_first(f, 0, "duration"@);
    lemma_lookup_first(f, 1, "at"@);
}

// ---- Event ----

/// The wire tree of an event: its date goes out tagged.
pub open spec fn event_tree(e: EventV) -> TreeV {
    TreeV::Object(seq![("name"@, TreeV::Str(e.name)), ("date"@, TreeV::Str(tag_date(e.date)))])
}

/// The event that a wire tree holds.
pub open spec fn event_of(t: TreeV) -> Result<EventV, DecodeError> {
    match t {
        TreeV::Object(f) => {
            let name = str_of(lookup(f, "name"@));
            let wire_date = str_of(lookup(f, "date"@));
            if name is Err {
                Err(name->Err_0)
            } else if wire_date is Err {
                Err(wire_date->Err_0)
            } else {
                match untag_date(wire_date->Ok_0) {
                    Ok(date) => Ok(EventV { name: name->Ok_0, date }),
                    Err(e) => Err(e),
                }
            }
        },
        _ => Err(DecodeError::TypeMismatch),
    }
}

pub fn encode_event(e: &Event) -> (r: Tree)
    ensures
        r@ == event_tree(e@),
{
    let mut f: Vec<(String, Tree)> = Vec::new();
    f.push((text("name"), Tree::Str(e.name.clone())));
    f.push((text("date"), Tree::Str(encode_date(e.date.as_str()))));
    proof {
        lemma_object_view(f);
        assert(entries_view(f@) =~= event_tree(e@)->Object_0);
    }
    Tree::Object(f)
}

pub fn decode_event(t: &Tree) -> (r: Result<Event, DecodeError>)
    ensures
        model_of(r) == event_of(t@),
{
    match t {
        Tree::Object(f) => {
            proof {
                lemma_object_view(*f);
            }
            let name = match read_string(f, "name") {
                Ok(v) => v,
                Err(e) => return Err(e),
            };
            let wire_date = match read_string(f, "date") {
                Ok(v) => v,
                Err(e) => return Err(e),
            };
            let date = match decode_date(wire_date.as_str()) {
                Ok(v) => v,
                Err(e) => return Err(e),
            };
            Ok(Event { name, date })
        },
        _ => Err(DecodeError::TypeMismatch),
    }
}

/// Decoding the tree written for an event gives the event back.
pub proof fn lemma_event_round_trip(e: EventV)
    ensures
        event_of(event_tree(e)) == Ok::<EventV, DecodeError>(e),
{
    let f = event_tree(e)->Object_0;
    reveal_strlit("name");
    reveal_strlit("date");
    assert(f[0].0 == "name"@ && f[1].0 == "date"@);
    assert("name"@[0] != "date"@[0]);
    lemma_lookup_first(f, 0, "name"@);
    lemma_lookup_first(f, 1, "date"@);
    lemma_date_round_trip(e.date);
}

// ---- Stream ----

/// The value of a nested entity, which must be present.
pub open spec fn nested_of<T>(v: Option<TreeV>, dec: spec_fn(TreeV) -> Result<T, DecodeError>) -> Result<
    T,
    DecodeError,
> {
    match v {
        None => Err(DecodeError::MissingField),
        Some(t) => dec(t),
    }
}

/// The wire tree of a stream.
pub open spec fn stream_tree(s: StreamV) -> TreeV {
    TreeV::Object(
        seq![
            ("user_id"@, TreeV::Str(uuid_text(s.user_id.value))),
            ("is_private"@, TreeV::Bool(s.is_private)),
            ("settings"@, TreeV::Int(s.settings as int)),
            ("shard_url"@, TreeV::Str(s.shard_url)),
            ("public_tariff"@, public_tariff_tree(s.public_tariff)),
            ("private_tariff"@, private_tariff_tree(s.private_tariff)),
        ],
    )
}

/// The stream that a wire tree holds.
pub open spec fn stream_of(t: TreeV) -> Result<StreamV, DecodeError> {
    match t {
        TreeV::Object(f) => {
            let user_id = uuid_of(lookup(f, "user_id"@));
            let is_private = bool_of(lookup(f, "is_private"@));
            let settings = u32_of(lookup(f, "settings"@));
            let shard_url = url_of(lookup(f, "shard_url"@));
            let public_tariff = nested_of(
                lookup(f, "public_tariff"@),
                |t: TreeV| public_tariff_of(t),
            );
            let private_tariff = nested_of(
                lookup(f, "private_tariff"@),
                |t: TreeV| private_tariff_of(t),
            );
            if user_id is Err {
                Err(user_id->Err_0)
            } else if is_private is Err {
                Err(is_private->Err_0)
            } else if settings is Err {
                Err(settings->Err_0)
            } else if shard_url is Err {
                Err(shard_url->Err_0)
            } else if public_tariff is Err {
                Err(public_tariff->Err_0)
            } else if private_tariff is Err {
                Err(private_tariff->Err_0)
            } else {
                Ok(
                    StreamV {
                        user_id: user_id->Ok_0,
                        is_private: is_private->Ok_0,
                        settings: settings->Ok_0,
                        shard_url: shard_url->Ok_0,
                        public_tariff: public_tariff->Ok_0,
                        private_tariff: private_tariff->Ok_0,
                    },
                )
            }
        },
        _ => Err(DecodeError::TypeMismatch),
    }
}

pub fn encode_stream(s: &Stream) -> (r: Tree)
    requires
        s.public_tariff.duration.wf(),
        s.private_tariff.duration.wf(),
    ensures
        r@ == stream_tree(s@),
{
    let mut f: Vec<(String, Tree)> = Vec::new();
    f.push((text("user_id"), Tree::Str(s.user_id.to_text())));
    f.push((text("is_private"), Tree::Bool(s.is_private)));
    f.push((text("settings"), Tree::Int(s.settings as i128)));
    f.push((text("shard_url"), Tree::Str(s.shard_url.text.clone())));
    f.push((text("public_tariff"), encode_public_tariff(&s.public_tariff)));
    f.push((text("private_tariff"), encode_private_tariff(&s.private_tariff)));
    proof {
        lemma_object_view(f);
        assert(entries_view(f@) =~= stream_tree(s@)->Object_0);
    }
    Tree::Object(f)
}

pub fn decode_stream(t: &Tree) -> (r: Result<Stream, DecodeError>)
    ensures
        model_of(r) == stream_of(t@),
        r matches Ok(s) ==> s.public_tariff.duration.wf() && s.private_tariff.duration.wf(),
{
    match t {
        Tree::Object(f) => {
            proof {
                lemma_object_view(*f);
            }
            let user_id = match read_uuid(f, "user_id") {
                Ok(v) => v,
                Err(e) => return Err(e),
            };
            let is_private = match read_bool(f, "is_private") {
                Ok(v) => v,
                Err(e) => return Err(e),
            };
            let settings = match read_u32(f, "settings") {
                Ok(v) => v,
                Err(e) => return Err(e),
            };
            let shard_url = match read_url(f, "shard_url") {
                Ok(v) => v,
                Err(e) => return Err(e),
            };
            let public_tariff = match get_entry(f, "public_tariff") {
                None => return Err(DecodeError::MissingField),
                Some(v) => match decode_public_tariff(v) {
                    Ok(p) => p,
                    Err(e) => return Err(e),
                },
            };
            let private_tariff = match get_entry(f, "private_tariff") {
                None => return Err(DecodeError::MissingField),
                Some(v) => match decode_private_tariff(v) {
                    Ok(p) => p,
                    Err(e) => return Err(e),
                },
            };
            Ok(Stream { user_id, is_private, settings, shard_url, public_tariff, private_tariff })
        },
        _ => Err(DecodeError::TypeMismatch),
    }
}

/// Decoding the tree written for a valid stream gives it back.
pub proof fn lemma_stream_round_trip(s: StreamV)
    requires
        s.wf(),
    ensures
        stream_of(stream_tree(s)) == Ok::<StreamV, DecodeError>(s),
{
    let f = stream_tree(s)->Object_0;
    reveal_stream_keys(s);
    lemma_lookup_first(f, 0, "user_id"@);
    lemma_lookup_first(f, 1, "is_private"@);
    lemma_lookup_first(f, 2, "settings"@);
    lemma_lookup_first(f, 3, "shard_url"@);
    lemma_lookup_first(f, 4, "public_tariff"@);
    lemma_lookup_first(f, 5, "private_tariff"@);
    lemma_public_tariff_round_trip(s.public_tariff);
    lemma_private_tariff_round_trip(s.private_tariff);
}

// ---- Gift lists ----

/// The wire trees of a list of gifts, in order.
pub open spec fn gifts_tree(gs: Seq<GiftV>) -> Seq<TreeV> {
    gs.map_values(|g: GiftV| gift_tree(g))
}

/// The gifts that a list of wire trees holds; the first failing item decides the error.
pub open spec fn gifts_of(items: Seq<TreeV>) -> Result<Seq<GiftV>, DecodeError>
    decreases items.len(),
{
    if items.len() == 0 {
        Ok(Seq::empty())
    } else {
        match gifts_of(items.drop_last()) {
            Err(e) => Err(e),
            Ok(gs) => match gift_of(items.last()) {
                Err(e) => Err(e),
                Ok(g) => Ok(gs.push(g)),
            },
        }
    }
}

/// An error in a prefix of the list is the error of the whole list.
pub proof fn lemma_gifts_prefix_error(items: Seq<TreeV>, k: int)
    requires
        0 <= k <= items.len(),
        gifts_of(items.subrange(0, k)) is Err,
    ensures
        gifts_of(items) == gifts_of(items.subrange(0, k)),
    decreases items.len() - k,
{
    if k == items.len() {
        assert(items.subrange(0, k) =~= items);
    } else {
        let shorter = items.drop_last();
        assert(shorter.subrange(0, k) =~= items.subrange(0, k));
        lemma_gifts_prefix_error(shorter, k);
    }
}

/// Decoding the trees written for a list of gifts gives the list back.
pub proof fn lemma_gifts_round_trip(gs: Seq<GiftV>)
    ensures
        gifts_of(gifts_tree(gs)) == Ok::<Seq<GiftV>, DecodeError>(gs),
    decreases gs.len(),
{
    if gs.len() > 0 {
        assert(gifts_tree(gs).drop_last() =~= gifts_tree(gs.drop_last()));
        lemma_gifts_round_trip(gs.drop_last());
        lemma_gift_round_trip(gs.last());
        assert(gifts_tree(gs).last() == gift_tree(gs.last()));
        assert(gs.drop_last().push(gs.last()) =~= gs);
    } else {
        assert(gs =~= Seq::<GiftV>::empty());
    }
}

pub fn encode_gifts(gifts: &Vec<Gift>) -> (r: Vec<Tree>)
    ensures
        r@.map_values(|t: Tree| t@) == gifts_tree(gifts_view(gifts@)),
{
    let mut items: Vec<Tree> = Vec::new();
    let mut i: usize = 0;
    while i < gifts.len()
        invariant
            i <= gifts@.len(),
            items@.len() == i,
            forall|j: int| 0 <= j < i ==> (#[trigger] items@[j])@ == gift_tree(gifts@[j]@),
        decreases gifts@.len() - i,
    {
        let t = encode_gift(&gifts[i]);
        items.push(t);
        i = i + 1;
    }
    assert(items@.map_values(|t: Tree| t@) =~= gifts_tree(gifts_view(gifts@)));
    items
}

pub fn decode_gifts(items: &Vec<Tree>) -> (r: Result<Vec<Gift>, DecodeError>)
    ensures
        match r {
            Ok(gs) => gifts_of(items@.map_values(|t: Tree| t@)) == Ok::<Seq<GiftV>, DecodeError>(
                gifts_view(gs@),
            ),
            Err(e) => gifts_of(items@.map_values(|t: Tree| t@)) == Err::<Seq<GiftV>, DecodeError>(
                e,
            ),
        },
{
    let ghost all = items@.map_values(|t: Tree| t@);
    let mut out: Vec<Gift> = Vec::new();
    let mut i: usize = 0;
    assert(all.subrange(0, 0) =~= Seq::<TreeV>::empty());
    assert(gifts_view(out@) =~= Seq::<GiftV>::empty());
    while i < items.len()
        invariant
            i <= items@.len(),
            all == items@.map_values(|t: Tree| t@),
            gifts_of(all.subrange(0, i as int)) == Ok::<Seq<GiftV>, DecodeError>(
                gifts_view(out@),
            ),
        decreases items@.len() - i,
    {
        let ghost before = out@;
        assert(all.subrange(0, i + 1).drop_last() =~= all.subrange(0, i as int));
        assert(all.subrange(0, i + 1).last() == items@[i as int]@);
        match decode_gift(&items[i]) {
            Ok(g) => {
                out.push(g);
                assert(gifts_view(out@) =~= gifts_view(before).push(g@));
            },
            Err(e) => {
                proof {
                    lemma_gifts_prefix_error(all, i + 1);
                }
                return Err(e);
            },
        }
        i = i + 1;
    }
    assert(all.subrange(0, i as int) =~= all);
    Ok(out)
}

// ---- Request ----

/// The wire tree of a request; its kind goes out under the key `type`.
pub open spec fn request_tree(r: RequestV) -> TreeV {
    TreeV::Object(
        seq![
            ("type"@, TreeV::Str(request_type_tag(r.request_type))),
            ("stream"@, stream_tree(r.stream)),
            ("gifts"@, TreeV::Array(gifts_tree(r.gifts))),
            ("debug"@, debug_tree(r.debug)),
        ],
    )
}

/// The request that a wire tree holds.
pub open spec fn request_of(t: TreeV) -> Result<RequestV, DecodeError> {
    match t {
        TreeV::Object(f) => {
            let request_type = match str_of(lookup(f, "type"@)) {
                Err(e) => Err(e),
                Ok(tag) => request_type_of(tag),
            };
            let stream = nested_of(lookup(f, "stream"@), |t: TreeV| stream_of(t));
            let gifts = match lookup(f, "gifts"@) {
                None => Err(DecodeError::MissingField),
                Some(TreeV::Array(items)) => gifts_of(items),
                Some(_) => Err(DecodeError::TypeMismatch),
            };
            let debug = nested_of(lookup(f, "debug"@), |t: TreeV| debug_of(t));
            if request_type is Err {
                Err(request_type->Err_0)
            } else if stream is Err {
                Err(stream->Err_0)
            } else if gifts is Err {
                Err(gifts->Err_0)
            } else if debug is Err {
                Err(debug->Err_0)
            } else {
                Ok(
                    RequestV {
                        request_type: request_type->Ok_0,
                        stream: stream->Ok_0,
                        gifts: gifts->Ok_0,
                        debug: debug->Ok_0,
                    },
                )
            }
        },
        _ => Err(DecodeError::TypeMismatch),
    }
}

/// The durations of a request are within their representable range.
pub open spec fn request_durations_wf(r: &Request) -> bool {
    r.stream.public_tariff.duration.wf() && r.stream.private_tariff.duration.wf()
        && r.debug.duration.wf()
}

pub fn encode_request(r: &Request) -> (t: Tree)
    requires
        request_durations_wf(r),
    ensures
        t@ == request_tree(r@),
{
    let mut f: Vec<(String, Tree)> = Vec::new();
    f.push((text("type"), Tree::Str(r.request_type.tag())));
    f.push((text("stream"), encode_stream(&r.stream)));
    let items = encode_gifts(&r.gifts);
    proof {
        lemma_array_view(items);
    }
    f.push((text("gifts"), Tree::Array(items)));
    f.push((text("debug"), encode_debug(&r.debug)));
    proof {
        lemma_object_view(f);
        assert(entries_view(f@) =~= request_tree(r@)->Object_0);
    }
    Tree::Object(f)
}

pub fn decode_request(t: &Tree) -> (r: Result<Request, DecodeError>)
    ensures
        model_of(r) == request_of(t@),
        r matches Ok(q) ==> request_durations_wf(&q),
{
    match t {
        Tree::Object(f) => {
            proof {
                lemma_object_view(*f);
            }
            let tag = match read_string(f, "type") {
                Ok(v) => v,
                Err(e) => return Err(e),
            };
            let request_type = match crate::model::RequestType::from_tag(tag.as_str()) {
                Ok(v) => v,
                Err(e) => return Err(e),
            };
            let stream = match get_entry(f, "stream") {
                None => return Err(DecodeError::MissingField),
                Some(v) => match decode_stream(v) {
                    Ok(s) => s,
                    Err(e) => return Err(e),
                },
            };
            let gifts = match get_entry(f, "gifts") {
                None => return Err(DecodeError::MissingField),
                Some(Tree::Array(items)) => {
                    proof {
                        lemma_array_view(*items);
                    }
                    match decode_gifts(items) {
                        Ok(gs) => gs,
                        Err(e) => return Err(e),
                    }
                },
                Some(_) => return Err(DecodeError::TypeMismatch),
            };
            let debug = match get_entry(f, "debug") {
                None => return Err(DecodeError::MissingField),
                Some(v) => match decode_debug(v) {
                    Ok(d) => d,
                    Err(e) => return Err(e),
                },
            };
            Ok(Request { request_type, stream, gifts, debug })
        },
        _ => Err(DecodeError::TypeMismatch),
    }
}

/// Decoding the tree written for a valid request gives it back, with its
/// stream, both tariffs, every gift in order and its debug information.
pub proof fn lemma_request_round_trip(r: RequestV)
    requires
        r.wf(),
    ensures
        request_of(request_tree(r)) == Ok::<RequestV, DecodeError>(r),
{
    let f = request_tree(r)->Object_0;
    reveal_strlit("type");
    reveal_strlit("stream");
    reveal_strlit("gifts");
    reveal_strlit("debug");
    assert(f[0].0 == "type"@ && f[1].0 == "stream"@ && f[2].0 == "gifts"@ && f[3].0 == "debug"@);
    assert("type"@.len() == 4 && "stream"@.len() == 6 && "gifts"@.len() == 5);
    assert("gifts"@[0] != "debug"@[0]);
    lemma_lookup_first(f, 0, "type"@);
    lemma_lookup_first(f, 1, "stream"@);
    lemma_lookup_first(f, 2, "gifts"@);
    lemma_lookup_first(f, 3, "debug"@);
    lemma_request_type_round_trip(r.request_type);
    lemma_stream_round_trip(r.stream);
    lemma_gifts_round_trip(r.gifts);
    lemma_debug_round_trip(r.debug);
}

/// A request's kind is written under the key `type`, never under `request_type`.
pub proof fn lemma_request_wire_names(r: RequestV)
    ensures
        lookup(request_tree(r)->Object_0, "type"@) == Some(
            TreeV::Str(request_type_tag(r.request_type)),
        ),
        lookup(request_tree(r)->Object_0, "request_type"@) is None,
{
    let f = request_tree(r)->Object_0;
    reveal_strlit("type");
    reveal_strlit("stream");
    reveal_strlit("gifts");
    reveal_strlit("debug");
    reveal_strlit("request_type");
    assert(f[0].0 == "type"@ && f[1].0 == "stream"@ && f[2].0 == "gifts"@ && f[3].0 == "debug"@);
    lemma_lookup_first(f, 0, "type"@);
    lemma_lookup_absent(f, "request_type"@);
}

// ---- Rejected input ----

proof fn reveal_stream_keys(s: StreamV)
    ensures
        ({
            let f = stream_tree(s)->Object_0;
            &&& f.len() == 6
            &&& f[0].0 == "user_id"@ && f[1].0 == "is_private"@ && f[2].0 == "settings"@
            &&& f[3].0 == "shard_url"@ && f[4].0 == "public_tariff"@ && f[5].0 == "private_tariff"@
            &&& "user_id"@.len() == 7 && "is_private"@.len() == 10 && "settings"@.len() == 8
            &&& "shard_url"@.len() == 9 && "public_tariff"@.len() == 13
            &&& "private_tariff"@.len() == 14
        }),
{
    reveal_strlit("user_id");
    reveal_strlit("is_private");
    reveal_strlit("settings");
    reveal_strlit("shard_url");
    reveal_strlit("public_tariff");
    reveal_strlit("private_tariff");
}

/// A stream whose `user_id` is not a UUID is refused as a type mismatch.
pub proof fn lemma_bad_user_id_refused(s: StreamV, bad: Seq<char>)
    requires
        s.wf(),
        uuid_parsed(bad) is None,
    ensures
        stream_of(
            TreeV::Object(stream_tree(s)->Object_0.update(0, ("user_id"@, TreeV::Str(bad)))),
        ) == Err::<StreamV, DecodeError>(DecodeError::TypeMismatch),
{
    let f = stream_tree(s)->Object_0.update(0, ("user_id"@, TreeV::Str(bad)));
    reveal_stream_keys(s);
    lemma_lookup_first(f, 0, "user_id"@);
}

/// A stream whose `shard_url` is not a URL is refused as a type mismatch.
pub proof fn lemma_bad_shard_url_refused(s: StreamV, bad: Seq<char>)
    requires
        s.wf(),
        url_serialized(bad) is None,
    ensures
        stream_of(
            TreeV::Object(stream_tree(s)->Object_0.update(3, ("shard_url"@, TreeV::Str(bad)))),
        ) == Err::<StreamV, DecodeError>(DecodeError::TypeMismatch),
{
    let f = stream_tree(s)->Object_0.update(3, ("shard_url"@, TreeV::Str(bad)));
    reveal_stream_keys(s);
    lemma_lookup_first(f, 0, "user_id"@);
    lemma_lookup_first(f, 1, "is_private"@);
    lemma_lookup_first(f, 2, "settings"@);
    lemma_lookup_first(f, 3, "shard_url"@);
}

/// A stream whose public tariff holds a duration that does not parse is
/// refused as a type mismatch.
pub proof fn lemma_bad_duration_refused(s: StreamV, bad: Seq<char>)
    requires
        s.wf(),
        elapsed_parsed(bad) is None,
    ensures
        stream_of(
            TreeV::Object(
                stream_tree(s)->Object_0.update(
                    4,
                    (
                        "public_tariff"@,
                        TreeV::Object(
                            public_tariff_tree(s.public_tariff)->Object_0.update(
                                2,
                                ("duration"@, TreeV::Str(bad)),
                            ),
                        ),
                    ),
                ),
            ),
        ) == Err::<StreamV, DecodeError>(DecodeError::TypeMismatch),
{
    let p = public_tariff_tree(s.public_tariff)->Object_0.update(2, ("duration"@, TreeV::Str(bad)));
    let f = stream_tree(s)->Object_0.update(4, ("public_tariff"@, TreeV::Object(p)));
    reveal_stream_keys(s);
    reveal_strlit("id");
    reveal_strlit("price");
    reveal_strlit("duration");
    assert(p[0].0 == "id"@ && p[1].0 == "price"@ && p[2].0 == "duration"@);
    lemma_lookup_first(p, 0, "id"@);
    lemma_lookup_first(p, 1, "price"@);
    lemma_lookup_first(p, 2, "duration"@);
    lemma_lookup_first(f, 0, "user_id"@);
    lemma_lookup_first(f, 1, "is_private"@);
    lemma_lookup_first(f, 2, "settings"@);
    lemma_lookup_first(f, 3, "shard_url"@);
    lemma_lookup_first(f, 4, "public_tariff"@);
}

/// A request whose stream lacks `shard_url` is refused as a missing field.
pub proof fn lemma_missing_shard_url_refused(r: RequestV)
    requires
        r.wf(),
    ensures
        request_of(
            TreeV::Object(
                request_tree(r)->Object_0.update(
                    1,
                    ("stream"@, TreeV::Object(stream_tree(r.stream)->Object_0.remove(3))),
                ),
            ),
        ) == Err::<RequestV, DecodeError>(DecodeError::MissingField),
{
    let sf = stream_tree(r.stream)->Object_0.remove(3);
    let f = request_tree(r)->Object_0.update(1, ("stream"@, TreeV::Object(sf)));
    reveal_stream_keys(r.stream);
    reveal_strlit("type");
    reveal_strlit("stream");
    assert(f[0].0 == "type"@ && f[1].0 == "stream"@);
    lemma_lookup_first(f, 0, "type"@);
    lemma_lookup_first(f, 1, "stream"@);
    lemma_request_type_round_trip(r.request_type);
    assert(sf.len() == 5 && sf[0].0 == "user_id"@ && sf[1].0 == "is_private"@ && sf[2].0
        == "settings"@ && sf[3].0 == "public_tariff"@ && sf[4].0 == "private_tariff"@);
    lemma_lookup_first(sf, 0, "user_id"@);
    lemma_lookup_first(sf, 1, "is_private"@);
    lemma_lookup_first(sf, 2, "settings"@);
    lemma_lookup_absent(sf, "shard_url"@);
}

} // verus!
