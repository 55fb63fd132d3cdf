//! A value provider backed by a fixed table: it answers a read request from
//! a map of identifiers to pre-set value texts, standing in for the live
//! simulation host.

use vstd::prelude::*;
use vstd::string::StringExecFns;

use crate::error::{handler_error_message, UdpRequestHandlerError, UdpRequestHandlerErrorView};
use crate::handler::{UdpRequestHandler, UdpRequestHandlerType};
use crate::request::{decode_msg, selector_of, UdpRequest, UdpRequestView};
use crate::response::{serialize_response, Status};
use crate::server::reply_for_message;
use crate::table::{entries_map, LookupTable};

verus! {

/// The map described by a sequence of key/value entries, as character
/// sequences, a later entry for a key shadowing an earlier one.
pub open spec fn entries_view(s: Seq<(String, String)>) -> Map<Seq<char>, Seq<char>> {
    Map::new(
        |k: Seq<char>| entries_map(s).contains_key(k),
        |k: Seq<char>| entries_map(s)[k]@,
    )
}

/// A handler that reads identifiers from a fixed table instead of a live
/// simulation host.
pub struct MockDataRefReader {
    mock_data_refs: LookupTable<String>,
}

impl View for MockDataRefReader {
    type V = Map<Seq<char>, Seq<char>>;

    closed spec fn view(&self) -> Map<Seq<char>, Seq<char>> {
        Map::new(
            |k: Seq<char>| self.mock_data_refs@.contains_key(k),
            |k: Seq<char>| self.mock_data_refs@[k]@,
        )
    }
}

impl MockDataRefReader {
    /// A reader pre-loaded with a few simulation variables.
    pub fn new() -> (r: Self)
        ensures
            r@ == Map::<Seq<char>, Seq<char>>::empty().insert(
                "sim/cockpit2/controls/parking_brake_ratio"@,
                "1.0"@,
            ).insert("sim/cockpit2/engine/actuators/throttle_ratio"@, "0.5"@).insert(
                "sim/cockpit2/engine/actuators/eng_master"@,
                "[0,1]"@,
            ).insert("sim/cockpit2/electrical/battery_on"@, "[1,1,1]"@),
    {
        let mut table: LookupTable<String> = LookupTable::new();
        table.insert(
            String::from_str("sim/cockpit2/controls/parking_brake_ratio"),
            String::from_str("1.0"),
        );
        table.insert(
            String::from_str("sim/cockpit2/engine/actuators/throttle_ratio"),
            String::from_str("0.5"),
        );
        table.insert(
            String::from_str("sim/cockpit2/engine/actuators/eng_master"),
            String::from_str("[0,1]"),
        );
        table.insert(
            String::from_str("sim/cockpit2/electrical/battery_on"),
            String::from_str("[1,1,1]"),
        );
        let r = MockDataRefReader { mock_data_refs: table };
        proof {
            assert(r@ =~= Map::<Seq<char>, Seq<char>>::empty().insert(
                "sim/cockpit2/controls/parking_brake_ratio"@,
                "1.0"@,
            ).insert("sim/cockpit2/engine/actuators/throttle_ratio"@, "0.5"@).insert(
                "sim/cockpit2/engine/actuators/eng_master"@,
                "[0,1]"@,
            ).insert("sim/cockpit2/electrical/battery_on"@, "[1,1,1]"@));
        }
        r
    }

    /// A reader answering exactly from the given entries.
    pub fn from_entries(entries: Vec<(String, String)>) -> (r: Self)
        ensures
            r@ == entries_view(entries@),
    {
        let mut table: LookupTable<String> = LookupTable::new();
        let n = entries.len();
        let mut i: usize = 0;
        proof {
            assert(entries@.take(0) =~= Seq::<(String, String)>::empty());
        }
        while i < n
            invariant
                n == entries@.len(),
                0 <= i <= n,
                table@ == entries_map(entries@.take(i as int)),
            decreases n - i,
        {
            let key = entries[i].0.clone();
            let value = entries[i].1.clone();
            table.insert(key, value);
            proof {
                assert(entries@.take(i + 1).drop_last() =~= entries@.take(i as int));
                assert(entries@.take(i + 1).last() == entries@[i as int]);
            }
            i += 1;
        }
        let r = MockDataRefReader { mock_data_refs: table };
        proof {
            assert(entries@.take(n as int) =~= entries@);
            assert(r@ =~= entries_view(entries@));
        }
        r
    }
}

impl UdpRequestHandler for MockDataRefReader {
    open spec fn spec_handler_type(&self) -> UdpRequestHandlerType {
        UdpRequestHandlerType::DataRefReader
    }

    fn get_handler_type(&self) -> (t: UdpRequestHandlerType) {
        UdpRequestHandlerType::DataRefReader
    }

    /// Answer a request from the table: the value text bound to the
    /// request's body, or a read error when the body is not bound.
    fn handle(&self, request: UdpRequest) -> (r: Result<String, UdpRequestHandlerError>)
        ensures
            self@.contains_key(request@.data) ==> (r matches Ok(v) && v@ == self@[request@.data]),
            !self@.contains_key(request@.data) ==> (r matches Err(e) && e@
                == (UdpRequestHandlerErrorView::DataRefReadError { data_ref: request@.data })),
    {
        let data_ref_key = request.get_data();
        match self.mock_data_refs.get(data_ref_key.as_str()) {
            Some(value) => Ok(value.clone()),
            None => Err(UdpRequestHandlerError::DataRefReadError { data_ref: data_ref_key }),
        }
    }
}

/// With a table-backed reader behind the selector, the pipeline's reply is
/// pinned completely: for a message that decodes to `m` and whose selector
/// is bound to the reader `h`, the reply is the success reply carrying
/// exactly the value `h` binds to the request body, and when `h` does not
/// bind the body, exactly the internal-server-error reply with the read
/// diagnostic for that body — the lookup-failure-to-500 mapping of the
/// protocol.
pub proof fn lemma_mock_pipeline_reply(
    handlers: Map<Seq<char>, MockDataRefReader>,
    msg: Seq<char>,
    reply: Seq<char>,
    m: UdpRequestView,
)
    requires
        decode_msg(msg) == Ok::<UdpRequestView, crate::error::InvalidUdpRequestErrorView>(m),
        handlers.contains_key(selector_of(m.request_type, m.operation, m.data_type)),
        reply_for_message(handlers, msg, reply),
    ensures
        handlers[selector_of(m.request_type, m.operation, m.data_type)]@.contains_key(m.data)
            ==> reply == serialize_response(
            Status::Okay,
            handlers[selector_of(m.request_type, m.operation, m.data_type)]@[m.data],
        ),
        !handlers[selector_of(m.request_type, m.operation, m.data_type)]@.contains_key(m.data)
            ==> reply == serialize_response(
            Status::InternalServerError,
            handler_error_message(
                UdpRequestHandlerErrorView::DataRefReadError { data_ref: m.data },
            ),
        ),
{
    let sel = selector_of(m.request_type, m.operation, m.data_type);
    let h = handlers[sel];
    let (req, outcome) = choose|req: UdpRequest, outcome: Result<String, UdpRequestHandlerError>|
        {
            &&& req@ == m
            &&& #[trigger] call_ensures(MockDataRefReader::handle, (&h, req), outcome)
            &&& reply == (match outcome {
                Ok(body) => serialize_response(Status::Okay, body@),
                Err(e) => serialize_response(
                    Status::InternalServerError,
                    handler_error_message(e@),
                ),
            })
        };
    if h@.contains_key(m.data) {
        assert(outcome matches Ok(body) && body@ == h@[m.data]);
    } else {
        assert(outcome matches Err(e) && e@ == (UdpRequestHandlerErrorView::DataRefReadError {
            data_ref: m.data,
        }));
    }
}

} // verus!
