//! Lightning node events and the standardized event each one becomes: its
//! type, severity, title, description and data fields.

use vstd::prelude::*;
use crate::models::{CreateEvent, EventSeverity, EventType};
use crate::text::{concat, concat3, i64_to_decimal, signed_decimal};

verus! {

/// Events streamed by an LND node.
#[derive(Debug, Clone, PartialEq, Eq)]
pub enum LNDEvent {
    ChannelOpened {
        active: bool,
        remote_pubkey: String,
        channel_point: String,
        chan_id: u64,
        capacity: i64,
        local_balance: i64,
        remote_balance: i64,
        total_satoshis_sent: i64,
        total_satoshis_received: i64,
    },
    ChannelClosed {
        channel_point: String,
        chan_id: u64,
        chain_hash: String,
        closing_tx_hash: String,
        remote_pubkey: String,
        capacity: i64,
        close_height: u32,
        settled_balance: i64,
        time_locked_balance: i64,
        close_type: i32,
        open_initiator: i32,
        close_initiator: i32,
    },
    InvoiceCreated {
        preimage: Vec<u8>,
        hash: Vec<u8>,
        value_msat: i64,
        state: i32,
        memo: String,
        creation_date: i64,
        payment_request: String,
    },
    InvoiceSettled {
        preimage: Vec<u8>,
        hash: Vec<u8>,
        value_msat: i64,
        state: i32,
        memo: String,
        creation_date: i64,
        payment_request: String,
    },
    InvoiceCancelled {
        preimage: Vec<u8>,
        hash: Vec<u8>,
        value_msat: i64,
        state: i32,
        memo: String,
        creation_date: i64,
        payment_request: String,
    },
    InvoiceAccepted {
        preimage: Vec<u8>,
        hash: Vec<u8>,
        value_msat: i64,
        state: i32,
        memo: String,
        creation_date: i64,
        payment_request: String,
    },
}

/// Events streamed by a Core Lightning node.
#[derive(Debug, Clone, PartialEq, Eq)]
pub enum CLNEvent {
    ChannelOpened {},
}

/// An event of either node implementation.
#[derive(Debug, Clone, PartialEq, Eq)]
pub enum NodeSpecificEvent {
    LND(LNDEvent),
    CLN(CLNEvent),
}

/// A value of an event's data: a JSON boolean, number or string.
#[derive(Debug, Clone, PartialEq, Eq)]
pub enum DataValue {
    Bool(bool),
    Int(i64),
    UInt(u64),
    Text(String),
}

/// Model of a [`DataValue`].
pub enum DataValueView {
    Bool(bool),
    Number(int),
    Text(Seq<char>),
}

impl View for DataValue {
    type V = DataValueView;

    open spec fn view(&self) -> DataValueView {
        match self {
            DataValue::Bool(b) => DataValueView::Bool(*b),
            DataValue::Int(n) => DataValueView::Number(*n as int),
            DataValue::UInt(n) => DataValueView::Number(*n as int),
            DataValue::Text(s) => DataValueView::Text(s@),
        }
    }
}

/// The standardized form of a node event. `data` lists the event's fields
/// by name; the order of the fields carries no meaning.
#[derive(Debug, Clone, PartialEq, Eq)]
pub struct EventDetails {
    pub event_type: EventType,
    pub severity: EventSeverity,
    pub title: String,
    pub description: String,
    pub data: Vec<(String, DataValue)>,
}

/// Model of the data fields of an event.
pub open spec fn data_view(d: Seq<(String, DataValue)>) -> Seq<(Seq<char>, DataValueView)> {
    d.map_values(|p: (String, DataValue)| (p.0@, p.1@))
}

/// The lowercase hexadecimal digit for `n < 16`.
pub open spec fn hex_digit(n: nat) -> char {
    if n < 10 {
        (n + 48) as char
    } else {
        (n + 87) as char
    }
}

/// Lowercase hexadecimal text of bytes, two digits per byte.
pub open spec fn hex_lower(b: Seq<u8>) -> Seq<char>
    decreases b.len(),
{
    if b.len() == 0 {
        Seq::empty()
    } else {
        hex_lower(b.drop_last()) + seq![hex_digit((b.last() / 16) as nat), hex_digit((b.last() % 16) as nat)]
    }
}

/// Calls `hex::encode`. Claimed: the text is the bytes' lowercase
/// hexadecimal form, two digits per byte, in order.
#[verifier::external_body]
pub(crate) fn hex_encode(bytes: &[u8]) -> (r: String)
    ensures
        r@ == hex_lower(bytes@),
{
    hex::encode(bytes)
}

/// The data fields of an invoice event.
pub open spec fn invoice_data(
    preimage: Seq<u8>,
    hash: Seq<u8>,
    value_msat: i64,
    state: i32,
    memo: Seq<char>,
    creation_date: i64,
    payment_request: Seq<char>,
) -> Seq<(Seq<char>, DataValueView)> {
    seq![
        ("preimage"@, DataValueView::Text(hex_lower(preimage))),
        ("hash"@, DataValueView::Text(hex_lower(hash))),
        ("value_msat"@, DataValueView::Number(value_msat as int)),
        ("state"@, DataValueView::Number(state as int)),
        ("memo"@, DataValueView::Text(memo)),
        ("creation_date"@, DataValueView::Number(creation_date as int)),
        ("payment_request"@, DataValueView::Text(payment_request)),
    ]
}

/// Type, severity, title and description text of each LND event.
pub open spec fn lnd_event_heading(e: LNDEvent) -> (EventType, EventSeverity, Seq<char>, Seq<char>) {
    match e {
        LNDEvent::ChannelOpened { remote_pubkey, .. } => (
            EventType::ChannelOpened,
            EventSeverity::Info,
            "Channel Opened"@,
            "New channel opened with "@ + remote_pubkey@,
        ),
        LNDEvent::ChannelClosed { remote_pubkey, .. } => (
            EventType::ChannelClosed,
            EventSeverity::Warning,
            "Channel Closed"@,
            "Channel closed with "@ + remote_pubkey@,
        ),
        LNDEvent::InvoiceCreated { value_msat, .. } => (
            EventType::InvoiceCreated,
            EventSeverity::Info,
            "Invoice Created"@,
            "New invoice created for "@ + signed_decimal(value_msat as int) + " msat"@,
        ),
        LNDEvent::InvoiceSettled { value_msat, .. } => (
            EventType::InvoiceSettled,
            EventSeverity::Info,
            "Invoice Settled"@,
            "Invoice settled for "@ + signed_decimal(value_msat as int) + " msat"@,
        ),
        LNDEvent::InvoiceCancelled { value_msat, .. } => (
            EventType::InvoiceCancelled,
            EventSeverity::Warning,
            "Invoice Cancelled"@,
            "Invoice cancelled for "@ + signed_decimal(value_msat as int) + " msat"@,
        ),
        LNDEvent::InvoiceAccepted { value_msat, .. } => (
            EventType::InvoiceAccepted,
            EventSeverity::Info,
            "Invoice Accepted"@,
            "Invoice accepted for "@ + signed_decimal(value_msat as int) + " msat"@,
        ),
    }
}

/// The data fields of each LND event.
pub open spec fn lnd_event_data(e: LNDEvent) -> Seq<(Seq<char>, DataValueView)> {
    match e {
        LNDEvent::ChannelOpened {
            active,
            remote_pubkey,
            channel_point,
            chan_id,
            capacity,
            local_balance,
            remote_balance,
            total_satoshis_sent,
            total_satoshis_received,
        } => seq![
            ("active"@, DataValueView::Bool(active)),
            ("channel_id"@, DataValueView::Number(chan_id as int)),
            ("counterparty_node_id"@, DataValueView::Text(remote_pubkey@)),
            ("channel_point"@, DataValueView::Text(channel_point@)),
            ("capacity"@, DataValueView::Number(capacity as int)),
            ("local_balance"@, DataValueView::Number(local_balance as int)),
            ("remote_balance"@, DataValueView::Number(remote_balance as int)),
            ("total_satoshis_sent"@, DataValueView::Number(total_satoshis_sent as int)),
            ("total_satoshis_received"@, DataValueView::Number(total_satoshis_received as int)),
        ],
        LNDEvent::ChannelClosed {
            channel_point,
            chan_id,
            chain_hash,
            closing_tx_hash,
            remote_pubkey,
            capacity,
            close_height,
            settled_balance,
            time_locked_balance,
            close_type,
            open_initiator,
            close_initiator,
        } => seq![
            ("chan_id"@, DataValueView::Number(chan_id as int)),
            ("remote_pubkey"@, DataValueView::Text(remote_pubkey@)),
            ("channel_point"@, DataValueView::Text(channel_point@)),
            ("chain_hash"@, DataValueView::Text(chain_hash@)),
            ("closing_tx_hash"@, DataValueView::Text(closing_tx_hash@)),
            ("capacity"@, DataValueView::Number(capacity as int)),
            ("close_height"@, DataValueView::Number(close_height as int)),
            ("settled_balance"@, DataValueView::Number(settled_balance as int)),
            ("time_locked_balance"@, DataValueView::Number(time_locked_balance as int)),
            ("close_type"@, DataValueView::Number(close_type as int)),
            ("open_initiator"@, DataValueView::Number(open_initiator as int)),
            ("close_initiator"@, DataValueView::Number(close_initiator as int)),
        ],
        LNDEvent::InvoiceCreated {
            preimage,
            hash,
            value_msat,
            state,
            memo,
            creation_date,
            payment_request,
        } => invoice_data(
            preimage@,
            hash@,
            value_msat,
            state,
            memo@,
            creation_date,
            payment_request@,
        ),
        LNDEvent::InvoiceSettled {
            preimage,
            hash,
            value_msat,
            state,
            memo,
            creation_date,
            payment_request,
        } => invoice_data(
            preimage@,
            hash@,
            value_msat,
            state,
            memo@,
            creation_date,
            payment_request@,
        ),
        LNDEvent::InvoiceCancelled {
            preimage,
            hash,
            value_msat,
            state,
            memo,
            creation_date,
            payment_request,
        } => invoice_data(
            preimage@,
            hash@,
            value_msat,
            state,
            memo@,
            creation_date,
            payment_request@,
        ),
        LNDEvent::InvoiceAccepted {
            preimage,
            hash,
            value_msat,
            state,
            memo,
            creation_date,
            payment_request,
        } => invoice_data(
            preimage@,
            hash@,
            value_msat,
            state,
            memo@,
            creation_date,
            payment_request@,
        ),
    }
}

/// `details` is exactly the standardized form with this heading and data.
pub open spec fn details_are(
    d: EventDetails,
    heading: (EventType, EventSeverity, Seq<char>, Seq<char>),
    data: Seq<(Seq<char>, DataValueView)>,
) -> bool {
    &&& d.event_type == heading.0
    &&& d.severity == heading.1
    &&& d.title@ == heading.2
    &&& d.description@ == heading.3
    &&& data_view(d.data@) == data
}

fn field(name: &str, value: DataValue) -> (r: (String, DataValue))
    ensures
        r.0@ == name@,
        r.1 == value,
{
    (String::from_str(name), value)
}

fn invoice_details(
    event_type: EventType,
    severity: EventSeverity,
    title: &str,
    lead: &str,
    preimage: &Vec<u8>,
    hash: &Vec<u8>,
    value_msat: i64,
    state: i32,
    memo: &String,
    creation_date: i64,
    payment_request: &String,
) -> (r: EventDetails)
    ensures
        details_are(
            r,
            (event_type, severity, title@, lead@ + signed_decimal(value_msat as int) + " msat"@),
            invoice_data(
                preimage@,
                hash@,
                value_msat,
                state,
                memo@,
                creation_date,
                payment_request@,
            ),
        ),
{
    let amount = i64_to_decimal(value_msat);
    let description = concat3(lead, amount.as_str(), " msat");
    let mut data: Vec<(String, DataValue)> = Vec::new();
    data.push(field("preimage", DataValue::Text(hex_encode(preimage.as_slice()))));
    data.push(field("hash", DataValue::Text(hex_encode(hash.as_slice()))));
    data.push(field("value_msat", DataValue::Int(value_msat)));
    data.push(field("state", DataValue::Int(state as i64)));
    data.push(field("memo", DataValue::Text(memo.clone())));
    data.push(field("creation_date", DataValue::Int(creation_date)));
    data.push(field("payment_request", DataValue::Text(payment_request.clone())));
    assert(data_view(data@) =~= invoice_data(
        preimage@,
        hash@,
        value_msat,
        state,
        memo@,
        creation_date,
        payment_request@,
    ));
    EventDetails {
        event_type,
        severity,
        title: String::from_str(title),
        description,
        data,
    }
}

/// Standardizes an LND event.
pub fn process_lnd_event(e: &LNDEvent) -> (r: EventDetails)
    ensures
        details_are(r, lnd_event_heading(*e), lnd_event_data(*e)),
{
    match e {
        LNDEvent::ChannelOpened {
            active,
            remote_pubkey,
            channel_point,
            chan_id,
            capacity,
            local_balance,
            remote_balance,
            total_satoshis_sent,
            total_satoshis_received,
        } => {
            let mut data: Vec<(String, DataValue)> = Vec::new();
            data.push(field("active", DataValue::Bool(*active)));
            data.push(field("channel_id", DataValue::UInt(*chan_id)));
            data.push(field("counterparty_node_id", DataValue::Text(remote_pubkey.clone())));
            data.push(field("channel_point", DataValue::Text(channel_point.clone())));
            data.push(field("capacity", DataValue::Int(*capacity)));
            data.push(field("local_balance", DataValue::Int(*local_balance)));
            data.push(field("remote_balance", DataValue::Int(*remote_balance)));
            data.push(field("total_satoshis_sent", DataValue::Int(*total_satoshis_sent)));
            data.push(field("total_satoshis_received", DataValue::Int(*total_satoshis_received)));
            assert(data_view(data@) =~= lnd_event_data(*e));
            EventDetails {
                event_type: EventType::ChannelOpened,
                severity: EventSeverity::Info,
                title: String::from_str("Channel Opened"),
                description: concat("New channel opened with ", remote_pubkey.as_str()),
                data,
            }
        },
        LNDEvent::ChannelClosed {
            channel_point,
            chan_id,
            chain_hash,
            closing_tx_hash,
            remote_pubkey,
            capacity,
            close_height,
            settled_balance,
            time_locked_balance,
            close_type,
            open_initiator,
            close_initiator,
        } => {
            let mut data: Vec<(String, DataValue)> = Vec::new();
            data.push(field("chan_id", DataValue::UInt(*chan_id)));
            data.push(field("remote_pubkey", DataValue::Text(remote_pubkey.clone())));
            data.push(field("channel_point", DataValue::Text(channel_point.clone())));
            data.push(field("chain_hash", DataValue::Text(chain_hash.clone())));
            data.push(field("closing_tx_hash", DataValue::Text(closing_tx_hash.clone())));
            data.push(field("capacity", DataValue::Int(*capacity)));
            data.push(field("close_height", DataValue::Int(*close_height as i64)));
            data.push(field("settled_balance", DataValue::Int(*settled_balance)));
            data.push(field("time_locked_balance", DataValue::Int(*time_locked_balance)));
            data.push(field("close_type", DataValue::Int(*close_type as i64)));
            data.push(field("open_initiator", DataValue::Int(*open_initiator as i64)));
            data.push(field("close_initiator", DataValue::Int(*close_initiator as i64)));
            assert(data_view(data@) =~= lnd_event_data(*e));
            EventDetails {
                event_type: EventType::ChannelClosed,
                severity: EventSeverity::Warning,
                title: String::from_str("Channel Closed"),
                description: concat("Channel closed with ", remote_pubkey.as_str()),
                data,
            }
        },
        LNDEvent::InvoiceCreated {
            preimage,
            hash,
            value_msat,
            state,
            memo,
            creation_date,
            payment_request,
        } => invoice_details(
            EventType::InvoiceCreated,
            EventSeverity::Info,
            "Invoice Created",
            "New invoice created for ",
            preimage,
            hash,
            *value_msat,
            *state,
            memo,
            *creation_date,
            payment_request,
        ),
        LNDEvent::InvoiceSettled {
            preimage,
            hash,
            value_msat,
            state,
            memo,
            creation_date,
            payment_request,
        } => invoice_details(
            EventType::InvoiceSettled,
            EventSeverity::Info,
            "Invoice Settled",
            "Invoice settled for ",
            preimage,
            hash,
            *value_msat,
            *state,
            memo,
            *creation_date,
            payment_request,
        ),
        LNDEvent::InvoiceCancelled {
            preimage,
            hash,
            value_msat,
            state,
            memo,
            creation_date,
            payment_request,
        } => invoice_details(
            EventType::InvoiceCancelled,
            EventSeverity::Warning,
            "Invoice Cancelled",
            "Invoice cancelled for ",
            preimage,
            hash,
            *value_msat,
            *state,
            memo,
            *creation_date,
            payment_request,
        ),
        LNDEvent::InvoiceAccepted {
            preimage,
            hash,
            value_msat,
            state,
            memo,
            creation_date,
            payment_request,
        } => invoice_details(
            EventType::InvoiceAccepted,
            EventSeverity::Info,
            "Invoice Accepted",
            "Invoice accepted for ",
            preimage,
            hash,
            *value_msat,
            *state,
            memo,
            *creation_date,
            payment_request,
        ),
    }
}

/// Standardizes a Core Lightning event.
pub fn process_cln_event(e: &CLNEvent) -> (r: EventDetails)
    ensures
        details_are(
            r,
            (EventType::ChannelOpened, EventSeverity::Info, "Channel Opened"@, "New channel opened"@),
            Seq::empty(),
        ),
{
    match e {
        CLNEvent::ChannelOpened {} => {
            let data: Vec<(String, DataValue)> = Vec::new();
            assert(data_view(data@) =~= Seq::empty());
            EventDetails {
                event_type: EventType::ChannelOpened,
                severity: EventSeverity::Info,
                title: String::from_str("Channel Opened"),
                description: String::from_str("New channel opened"),
                data,
            }
        },
    }
}

/// Standardizes an event of either node implementation.
pub fn process_lightning_event(e: &NodeSpecificEvent) -> (r: EventDetails)
    ensures
        match *e {
            NodeSpecificEvent::LND(l) => details_are(r, lnd_event_heading(l), lnd_event_data(l)),
            NodeSpecificEvent::CLN(_) => details_are(
                r,
                (
                    EventType::ChannelOpened,
                    EventSeverity::Info,
                    "Channel Opened"@,
                    "New channel opened"@,
                ),
                Seq::empty(),
            ),
        },
{
    match e {
        NodeSpecificEvent::LND(l) => process_lnd_event(l),
        NodeSpecificEvent::CLN(c) => process_cln_event(c),
    }
}

impl EventDetails {
    /// The event record to store for these details, observed on a node at
    /// `timestamp`; `data` is the JSON text of the details' data fields.
    pub fn into_create_event(
        self,
        id: String,
        account_id: String,
        user_id: String,
        node_id: String,
        node_alias: String,
        data: String,
        timestamp: i64,
    ) -> (r: CreateEvent)
        ensures
            r.id == id,
            r.account_id == account_id,
            r.user_id == user_id,
            r.node_id == node_id,
            r.node_alias == node_alias,
            r.event_type == self.event_type,
            r.severity == self.severity,
            r.title == self.title,
            r.description == self.description,
            r.data == data,
            r.notifications_id is None,
            r.timestamp == timestamp,
    {
        CreateEvent {
            id,
            account_id,
            user_id,
            node_id,
            node_alias,
            event_type: self.event_type,
            severity: self.severity,
            title: self.title,
            description: self.description,
            data,
            notifications_id: None,
            timestamp,
        }
    }
}

/// `data` has a field named `name` holding `v`.
pub open spec fn data_has(data: Seq<(Seq<char>, DataValueView)>, name: Seq<char>, v: DataValueView) -> bool {
    exists|i: int| 0 <= i < data.len() && data[i] == (name, v)
}

/// The seven fields of an invoice event's data, each holding the invoice
/// field of its name (the byte fields as lowercase hexadecimal).
pub open spec fn invoice_fields_carried(
    d: Seq<(Seq<char>, DataValueView)>,
    preimage: Seq<u8>,
    hash: Seq<u8>,
    value_msat: i64,
    state: i32,
    memo: Seq<char>,
    creation_date: i64,
    payment_request: Seq<char>,
) -> bool {
    &&& d.len() == 7
    &&& data_has(d, "preimage"@, DataValueView::Text(hex_lower(preimage)))
    &&& data_has(d, "hash"@, DataValueView::Text(hex_lower(hash)))
    &&& data_has(d, "value_msat"@, DataValueView::Number(value_msat as int))
    &&& data_has(d, "state"@, DataValueView::Number(state as int))
    &&& data_has(d, "memo"@, DataValueView::Text(memo))
    &&& data_has(d, "creation_date"@, DataValueView::Number(creation_date as int))
    &&& data_has(d, "payment_request"@, DataValueView::Text(payment_request))
}

proof fn lemma_invoice_fields_carried(
    preimage: Seq<u8>,
    hash: Seq<u8>,
    value_msat: i64,
    state: i32,
    memo: Seq<char>,
    creation_date: i64,
    payment_request: Seq<char>,
)
    ensures
        invoice_fields_carried(
            invoice_data(preimage, hash, value_msat, state, memo, creation_date, payment_request),
            preimage,
            hash,
            value_msat,
            state,
            memo,
            creation_date,
            payment_request,
        ),
{
    let d = invoice_data(preimage, hash, value_msat, state, memo, creation_date, payment_request);
    assert(d[0] == ("preimage"@, DataValueView::Text(hex_lower(preimage))));
    assert(d[1] == ("hash"@, DataValueView::Text(hex_lower(hash))));
    assert(d[2] == ("value_msat"@, DataValueView::Number(value_msat as int)));
    assert(d[3] == ("state"@, DataValueView::Number(state as int)));
    assert(d[4] == ("memo"@, DataValueView::Text(memo)));
    assert(d[5] == ("creation_date"@, DataValueView::Number(creation_date as int)));
    assert(d[6] == ("payment_request"@, DataValueView::Text(payment_request)));
}

/// Each LND event becomes the standardized event of its kind, and each named
/// field of its data holds the event's field of that meaning: a channel
/// opening is an `Info` event whose data's `local_balance` is the local
/// balance and `remote_balance` the remote one, and so on for every field; a
/// channel closing is a `Warning`; an invoice event carries the invoice's
/// amount, state, memo, dates and hashes.
pub proof fn law_lnd_event_data_carries_its_fields(e: LNDEvent)
    ensures
        match e {
            LNDEvent::ChannelOpened {
                active,
                remote_pubkey,
                channel_point,
                chan_id,
                capacity,
                local_balance,
                remote_balance,
                total_satoshis_sent,
                total_satoshis_received,
            } => {
                let d = lnd_event_data(e);
                &&& lnd_event_heading(e).0 == EventType::ChannelOpened
                &&& lnd_event_heading(e).1 == EventSeverity::Info
                &&& lnd_event_heading(e).3 == "New channel opened with "@ + remote_pubkey@
                &&& d.len() == 9
                &&& data_has(d, "active"@, DataValueView::Bool(active))
                &&& data_has(d, "channel_id"@, DataValueView::Number(chan_id as int))
                &&& data_has(d, "counterparty_node_id"@, DataValueView::Text(remote_pubkey@))
                &&& data_has(d, "channel_point"@, DataValueView::Text(channel_point@))
                &&& data_has(d, "capacity"@, DataValueView::Number(capacity as int))
                &&& data_has(d, "local_balance"@, DataValueView::Number(local_balance as int))
                &&& data_has(d, "remote_balance"@, DataValueView::Number(remote_balance as int))
                &&& data_has(d, "total_satoshis_sent"@, DataValueView::Number(total_satoshis_sent as int))
                &&& data_has(
                    d,
                    "total_satoshis_received"@,
                    DataValueView::Number(total_satoshis_received as int),
                )
            },
            LNDEvent::ChannelClosed {
                channel_point,
                chan_id,
                chain_hash,
                closing_tx_hash,
                remote_pubkey,
                capacity,
                close_height,
                settled_balance,
                time_locked_balance,
                close_type,
                open_initiator,
                close_initiator,
            } => {
                let d = lnd_event_data(e);
                &&& lnd_event_heading(e).0 == EventType::ChannelClosed
                &&& lnd_event_heading(e).1 == EventSeverity::Warning
                &&& lnd_event_heading(e).3 == "Channel closed with "@ + remote_pubkey@
                &&& d.len() == 12
                &&& data_has(d, "chan_id"@, DataValueView::Number(chan_id as int))
                &&& data_has(d, "remote_pubkey"@, DataValueView::Text(remote_pubkey@))
                &&& data_has(d, "channel_point"@, DataValueView::Text(channel_point@))
                &&& data_has(d, "chain_hash"@, DataValueView::Text(chain_hash@))
                &&& data_has(d, "closing_tx_hash"@, DataValueView::Text(closing_tx_hash@))
                &&& data_has(d, "capacity"@, DataValueView::Number(capacity as int))
                &&& data_has(d, "close_height"@, DataValueView::Number(close_height as int))
                &&& data_has(d, "settled_balance"@, DataValueView::Number(settled_balance as int))
                &&& data_has(d, "time_locked_balance"@, DataValueView::Number(time_locked_balance as int))
                &&& data_has(d, "close_type"@, DataValueView::Number(close_type as int))
                &&& data_has(d, "open_initiator"@, DataValueView::Number(open_initiator as int))
                &&& data_has(d, "close_initiator"@, DataValueView::Number(close_initiator as int))
            },
            LNDEvent::InvoiceCreated { preimage, hash, value_msat, state, memo, creation_date, payment_request } => {
                &&& lnd_event_heading(e).0 == EventType::InvoiceCreated
                &&& lnd_event_heading(e).1 == EventSeverity::Info
                &&& invoice_fields_carried(lnd_event_data(e), preimage@, hash@, value_msat, state, memo@, creation_date, payment_request@)
            },
            LNDEvent::InvoiceSettled { preimage, hash, value_msat, state, memo, creation_date, payment_request } => {
                &&& lnd_event_heading(e).0 == EventType::InvoiceSettled
                &&& lnd_event_heading(e).1 == EventSeverity::Info
                &&& invoice_fields_carried(lnd_event_data(e), preimage@, hash@, value_msat, state, memo@, creation_date, payment_request@)
            },
            LNDEvent::InvoiceCancelled { preimage, hash, value_msat, state, memo, creation_date, payment_request } => {
                &&& lnd_event_heading(e).0 == EventType::InvoiceCancelled
                &&& lnd_event_heading(e).1 == EventSeverity::Warning
                &&& invoice_fields_carried(lnd_event_data(e), preimage@, hash@, value_msat, state, memo@, creation_date, payment_request@)
            },
            LNDEvent::InvoiceAccepted { preimage, hash, value_msat, state, memo, creation_date, payment_request } => {
                &&& lnd_event_heading(e).0 == EventType::InvoiceAccepted
                &&& lnd_event_heading(e).1 == EventSeverity::Info
                &&& invoice_fields_carried(lnd_event_data(e), preimage@, hash@, value_msat, state, memo@, creation_date, payment_request@)
            },
        },
{
    match e {
        LNDEvent::ChannelOpened {
            active,
            remote_pubkey,
            channel_point,
            chan_id,
            capacity,
            local_balance,
            remote_balance,
            total_satoshis_sent,
            total_satoshis_received,
        } => {
            let d = lnd_event_data(e);
            assert(d[0] == ("active"@, DataValueView::Bool(active)));
            assert(d[1] == ("channel_id"@, DataValueView::Number(chan_id as int)));
            assert(d[2] == ("counterparty_node_id"@, DataValueView::Text(remote_pubkey@)));
            assert(d[3] == ("channel_point"@, DataValueView::Text(channel_point@)));
            assert(d[4] == ("capacity"@, DataValueView::Number(capacity as int)));
            assert(d[5] == ("local_balance"@, DataValueView::Number(local_balance as int)));
            assert(d[6] == ("remote_balance"@, DataValueView::Number(remote_balance as int)));
            assert(d[7] == ("total_satoshis_sent"@, DataValueView::Number(total_satoshis_sent as int)));
            assert(d[8] == ("total_satoshis_received"@, DataValueView::Number(total_satoshis_received as int)));
        },
        LNDEvent::ChannelClosed {
            channel_point,
            chan_id,
            chain_hash,
            closing_tx_hash,
            remote_pubkey,
            capacity,
            close_height,
            settled_balance,
            time_locked_balance,
            close_type,
            open_initiator,
            close_initiator,
        } => {
            let d = lnd_event_data(e);
            assert(d[0] == ("chan_id"@, DataValueView::Number(chan_id as int)));
            assert(d[1] == ("remote_pubkey"@, DataValueView::Text(remote_pubkey@)));
            assert(d[2] == ("channel_point"@, DataValueView::Text(channel_point@)));
            assert(d[3] == ("chain_hash"@, DataValueView::Text(chain_hash@)));
            assert(d[4] == ("closing_tx_hash"@, DataValueView::Text(closing_tx_hash@)));
            assert(d[5] == ("capacity"@, DataValueView::Number(capacity as int)));
            assert(d[6] == ("close_height"@, DataValueView::Number(close_height as int)));
            assert(d[7] == ("settled_balance"@, DataValueView::Number(settled_balance as int)));
            assert(d[8] == ("time_locked_balance"@, DataValueView::Number(time_locked_balance as int)));
            assert(d[9] == ("close_type"@, DataValueView::Number(close_type as int)));
            assert(d[10] == ("open_initiator"@, DataValueView::Number(open_initiator as int)));
            assert(d[11] == ("close_initiator"@, DataValueView::Number(close_initiator as int)));
        },
        LNDEvent::InvoiceCreated { preimage, hash, value_msat, state, memo, creation_date, payment_request } => {
            lemma_invoice_fields_carried(preimage@, hash@, value_msat, state, memo@, creation_date, payment_request@);
        },
        LNDEvent::InvoiceSettled { preimage, hash, value_msat, state, memo, creation_date, payment_request } => {
            lemma_invoice_fields_carried(preimage@, hash@, value_msat, state, memo@, creation_date, payment_request@);
        },
        LNDEvent::InvoiceCancelled { preimage, hash, value_msat, state, memo, creation_date, payment_request } => {
            lemma_invoice_fields_carried(preimage@, hash@, value_msat, state, memo@, creation_date, payment_request@);
        },
        LNDEvent::InvoiceAccepted { preimage, hash, value_msat, state, memo, creation_date, payment_request } => {
            lemma_invoice_fields_carried(preimage@, hash@, value_msat, state, memo@, creation_date, payment_request@);
        },
    }
}

} // verus!
