use plesio_core::apdu::class::ApduClass;
use plesio_core::apdu::command::ApduCommand;
use plesio_core::apdu::response::ApduResponse;
use plesio_core::apdu::status::ApduStatus;
use plesio_core::apdu::transport::ApduTransport;
use plesio_core::apdu::transport::PayloadTooLarge;
use plesio_core::apdu::transport::TransportError;
use plesio_core::iso7816::class::Iso7816Class;
use plesio_core::iso7816::get_response::GetResponse;
use plesio_core::iso7816::operation::Iso7816Command;
use plesio_core::iso7816::operation::Iso7816Operation;
use plesio_core::iso7816::operation::ReplyBuffer;
use plesio_core::iso7816::select::FileControlFlag;
use plesio_core::iso7816::select::Iso7816Select;
use plesio_core::iso7816::select::SelectOccurrence;
use plesio_core::iso7816::select_resolution::Iso7816SelectResolution;
use plesio_core::iso7816::transport::Iso7816Transport;
use plesio_core::iso7816::transport::Iso7816TransportError;

fn command(data: &[u8], chaining: bool) -> Iso7816Command {
    let class = Iso7816Class::from_u8(if chaining { 0x10 } else { 0x00 }).unwrap();
    Iso7816Command { class, instruction: 0xA4, parameters: (0x04, 0x00), data: data.to_vec() }
}

#[test]
fn chunking_single_chunk_keeps_chaining_state() {
    // data fits: exactly one chunk, chaining flag unchanged (here: unset)
    let base = command(&[1, 2, 3], false);
    let mut chunker = base.chunk(8);
    let only = chunker.next().unwrap();
    assert_eq!(only.data, vec![1, 2, 3]);
    assert!(!only.class.is_chaining());
    assert!(chunker.next().is_none());

    // and unchanged when the original already chains
    let base = command(&[1, 2, 3], true);
    let mut chunker = base.chunk(3);
    let only = chunker.next().unwrap();
    assert!(only.class.is_chaining());
    assert!(chunker.next().is_none());
}

#[test]
fn chunking_zero_length_data_still_sends_once() {
    let base = command(&[], false);
    let mut chunker = base.chunk(4);
    let only = chunker.next().unwrap();
    assert_eq!(only.data.len(), 0);
    assert!(!only.class.is_chaining());
    assert!(chunker.next().is_none());
}

#[test]
fn chunking_count_flags_and_concatenation() {
    let data: Vec<u8> = (0u8..10).collect();
    let base = command(&data, false);
    let mut chunker = base.chunk(4);
    let mut pieces: Vec<Iso7816Command> = Vec::new();
    while let Some(piece) = chunker.next() {
        pieces.push(piece);
    }
    // ceil(10 / 4) == 3 chunks of sizes 4, 4, 2
    assert_eq!(pieces.len(), 3);
    assert_eq!(pieces[0].data, vec![0, 1, 2, 3]);
    assert_eq!(pieces[1].data, vec![4, 5, 6, 7]);
    assert_eq!(pieces[2].data, vec![8, 9]);
    assert!(pieces[0].class.is_chaining());
    assert!(pieces[1].class.is_chaining());
    assert!(!pieces[2].class.is_chaining());
    let rebuilt: Vec<u8> = pieces.iter().flat_map(|p| p.data.iter().copied()).collect();
    assert_eq!(rebuilt, data);
    // instruction and parameters carry over
    assert_eq!(pieces[0].instruction, 0xA4);
    assert_eq!(pieces[0].parameters, (0x04, 0x00));

    // an exact multiple: ceil(8 / 4) == 2
    let base = command(&data[0..8], false);
    let mut chunker = base.chunk(4);
    let mut count: usize = 0;
    while let Some(_piece) = chunker.next() {
        count += 1;
    }
    assert_eq!(count, 2);
}

#[test]
fn select_builds_the_documented_wire_format() {
    let class = Iso7816Class::from_u8(0x00).unwrap();
    let aid = vec![0xA0, 0x00, 0x00, 0x03];
    let select = Iso7816Select::new(
        Iso7816SelectResolution::ByApplicationIdentifier(aid.clone()),
        ReplyBuffer { capacity: 32, requested: 32 },
    );
    let (cmd, reply) = select.build(class);
    assert_eq!(cmd.instruction, 0xA4);
    assert_eq!(cmd.parameters, (0x04, 0x00));
    assert_eq!(cmd.data, aid);
    assert_eq!(reply, ReplyBuffer { capacity: 32, requested: 32 });

    let select = Iso7816Select::new(
        Iso7816SelectResolution::ByFileId([0x3F, 0x00]),
        ReplyBuffer { capacity: 16, requested: 16 },
    )
        .with_occurrence(SelectOccurrence::Next)
        .with_file_control_flag(FileControlFlag::WithFileControlParameters);
    let (cmd, _) = select.build(class);
    assert_eq!(cmd.parameters, (0x00, 0x08 | 0x02));
    assert_eq!(cmd.data, vec![0x3F, 0x00]);
}

#[test]
fn select_parse_splits_success_from_other_statuses() {
    let select = Iso7816Select::new(
        Iso7816SelectResolution::ByFileId([0x3F, 0x00]),
        ReplyBuffer { capacity: 16, requested: 16 },
    );
    let raw = [0x6Fu8, 1, 7, 0x90, 0x00];
    let resp = ApduResponse::parse(&raw).unwrap();
    let mut iter = select.parse(&resp).expect("success status parses as TLV");
    let entry = iter.next().unwrap();
    assert_eq!(entry.tag(), 0x6F);
    assert_eq!(entry.value(), &[7]);

    let select = Iso7816Select::new(
        Iso7816SelectResolution::ByFileId([0x3F, 0x00]),
        ReplyBuffer { capacity: 16, requested: 16 },
    );
    let raw = [0x6Au8, 0x82];
    let resp = ApduResponse::parse(&raw).unwrap();
    let err = select.parse(&resp).expect_err("file-not-found is not success");
    assert_eq!(err.status().as_u16(), 0x6A82);
}

#[test]
fn get_response_builds_the_documented_wire_format() {
    let class = Iso7816Class::from_u8(0x00).unwrap();
    let op = GetResponse::new(ReplyBuffer { capacity: 5, requested: 5 });
    let (cmd, reply) = op.build(class);
    assert_eq!(cmd.instruction, 0xC0);
    assert_eq!(cmd.parameters, (0x00, 0x00));
    assert_eq!(cmd.data.len(), 0);
    assert_eq!(reply, ReplyBuffer { capacity: 5, requested: 5 });
    // parse is the identity on the reply
    let raw = [1u8, 2, 0x90, 0x00];
    let resp = ApduResponse::parse(&raw).unwrap();
    let back = op.parse(&resp);
    assert_eq!(back.data(), &[1, 2]);
    assert_eq!(back.status().as_u16(), 0x9000);
}

/// One scripted exchange: what the transport expects to be asked, and what
/// it answers.
struct Exchange {
    expect_instruction: u8,
    expect_class: u8,
    expect_data: Vec<u8>,
    expect_reply_len: usize,
    answer: Result<Vec<u8>, MockError>,
}

#[derive(Debug)]
struct MockError {
    too_large: Option<usize>,
}

impl TransportError for MockError {
    fn is_payload_too_large(&self) -> Option<PayloadTooLarge> {
        self.too_large.map(|max_size| PayloadTooLarge { max_size })
    }
}

struct MockTransport {
    script: Vec<Exchange>,
    step: usize,
}

impl MockTransport {
    fn new(script: Vec<Exchange>) -> Self {
        MockTransport { script, step: 0 }
    }
}

impl ApduTransport for MockTransport {
    type TransportError = MockError;

    fn execute<C: ApduCommand>(&mut self, command: &C, reply_len: usize) -> Result<Vec<u8>, MockError> {
        let exchange = &self.script[self.step];
        self.step += 1;
        assert_eq!(command.instruction(), exchange.expect_instruction, "step {}", self.step);
        assert_eq!(command.class().to_u8(), exchange.expect_class, "step {}", self.step);
        assert_eq!(command.data(), &exchange.expect_data[..], "step {}", self.step);
        assert_eq!(reply_len, exchange.expect_reply_len, "step {}", self.step);
        match &exchange.answer {
            Ok(raw) => Ok(raw.clone()),
            Err(e) => Err(MockError { too_large: e.too_large }),
        }
    }

    fn max_payload_size(&self) -> usize {
        8
    }
}

#[test]
fn end_to_end_continuation_scenario() {
    // a SELECT against transport max size 8: ten AID bytes force chaining;
    // the card then corrects the expected length to 16, delivers 11 bytes
    // announcing 5 more, and GET RESPONSE fetches the final 5
    let aid: Vec<u8> = vec![0xA0, 0x00, 0x00, 0x03, 0x97, 0x42, 0x54, 0x46, 0x59, 0x02];
    let full: Vec<u8> = {
        // sixteen reply bytes forming two TLV entries
        let mut v = vec![0x6F, 0x0C];
        v.extend_from_slice(&[1, 2, 3, 4, 5, 6, 7, 8, 9, 10, 11, 12]);
        v.extend_from_slice(&[0x81, 0x00]);
        v
    };
    assert_eq!(full.len(), 16);

    let first_part = full[0..11].to_vec();
    let second_part = full[11..16].to_vec();

    let script = vec![
        // the whole command exceeds the transport's payload size
        Exchange {
            expect_instruction: 0xA4,
            expect_class: 0x00,
            expect_data: aid.clone(),
            expect_reply_len: 4,
            answer: Err(MockError { too_large: Some(8) }),
        },
        // first chunk, chaining flag on, status-only scratch reply
        Exchange {
            expect_instruction: 0xA4,
            expect_class: 0x10,
            expect_data: aid[0..8].to_vec(),
            expect_reply_len: 0,
            answer: Ok(vec![0x90, 0x00]),
        },
        // last chunk, original class: the card reports wrong length 16
        Exchange {
            expect_instruction: 0xA4,
            expect_class: 0x00,
            expect_data: aid[8..10].to_vec(),
            expect_reply_len: 4,
            answer: Ok(vec![0x6C, 0x10]),
        },
        // the identical command resent, truncated to 16: chunked again
        Exchange {
            expect_instruction: 0xA4,
            expect_class: 0x00,
            expect_data: aid.clone(),
            expect_reply_len: 16,
            answer: Err(MockError { too_large: Some(8) }),
        },
        Exchange {
            expect_instruction: 0xA4,
            expect_class: 0x10,
            expect_data: aid[0..8].to_vec(),
            expect_reply_len: 0,
            answer: Ok(vec![0x90, 0x00]),
        },
        // the card delivers 16 - 5 bytes and announces 5 more
        Exchange {
            expect_instruction: 0xA4,
            expect_class: 0x00,
            expect_data: aid[8..10].to_vec(),
            expect_reply_len: 16,
            answer: Ok({
                let mut raw = first_part.clone();
                raw.extend_from_slice(&[0x61, 0x05]);
                raw
            }),
        },
        // GET RESPONSE for the announced 5 bytes at the offset's tail
        Exchange {
            expect_instruction: 0xC0,
            expect_class: 0x00,
            expect_data: vec![],
            expect_reply_len: 5,
            answer: Ok({
                let mut raw = second_part.clone();
                raw.extend_from_slice(&[0x90, 0x00]);
                raw
            }),
        },
    ];

    let mut engine = Iso7816Transport::new(MockTransport::new(script));
    let select = Iso7816Select::new(
        Iso7816SelectResolution::ByApplicationIdentifier(aid.clone()),
        ReplyBuffer { capacity: 16, requested: 4 },
    );
    let mut iter = engine.execute(select).expect("the full exchange succeeds").expect(
        "the final status is plain success",
    );
    // the result is the full 16 bytes, concatenated in order
    let first = iter.next().unwrap();
    assert_eq!(first.tag(), 0x6F);
    assert_eq!(first.value(), &[1, 2, 3, 4, 5, 6, 7, 8, 9, 10, 11, 12]);
    let second = iter.next().unwrap();
    assert_eq!(second.tag(), 0x81);
    assert_eq!(second.value().len(), 0);
    assert!(iter.next().is_none());
}

#[test]
fn wrong_length_beyond_capacity_reports_buffer_too_small() {
    let script = vec![Exchange {
        expect_instruction: 0xA4,
        expect_class: 0x00,
        expect_data: vec![0x3F, 0x00],
        expect_reply_len: 4,
        answer: Ok(vec![0x6C, 0x10]),
    }];
    let mut engine = Iso7816Transport::new(MockTransport::new(script));
    let select = Iso7816Select::new(
        Iso7816SelectResolution::ByFileId([0x3F, 0x00]),
        ReplyBuffer { capacity: 4, requested: 4 },
    );
    match engine.execute(select) {
        Err(Iso7816TransportError::ResponseBufferTooSmall { expected, hint }) => {
            assert_eq!(expected, 16);
            assert_eq!(hint, 4);
        },
        _ => panic!("a 16-byte correction cannot fit a 4-byte buffer"),
    }
}

#[test]
fn more_data_beyond_capacity_reports_buffer_too_small() {
    let script = vec![Exchange {
        expect_instruction: 0xA4,
        expect_class: 0x00,
        expect_data: vec![0x3F, 0x00],
        expect_reply_len: 6,
        answer: Ok(vec![1, 2, 3, 4, 0x61, 0x05]),
    }];
    let mut engine = Iso7816Transport::new(MockTransport::new(script));
    let select = Iso7816Select::new(
        Iso7816SelectResolution::ByFileId([0x3F, 0x00]),
        ReplyBuffer { capacity: 6, requested: 6 },
    );
    match engine.execute(select) {
        Err(Iso7816TransportError::ResponseBufferTooSmall { expected, hint }) => {
            // four bytes already accumulated plus five more announced
            assert_eq!(expected, 9);
            assert_eq!(hint, 6);
        },
        _ => panic!("4 + 5 bytes cannot fit a 6-byte buffer"),
    }
}

#[test]
fn opaque_transport_errors_propagate_unchanged() {
    let script = vec![Exchange {
        expect_instruction: 0xA4,
        expect_class: 0x00,
        expect_data: vec![0x3F, 0x00],
        expect_reply_len: 4,
        answer: Err(MockError { too_large: None }),
    }];
    let mut engine = Iso7816Transport::new(MockTransport::new(script));
    let select = Iso7816Select::new(
        Iso7816SelectResolution::ByFileId([0x3F, 0x00]),
        ReplyBuffer { capacity: 4, requested: 4 },
    );
    assert!(matches!(engine.execute(select), Err(Iso7816TransportError::Transport(_))));
}

#[test]
fn chain_aborts_early_on_intermediate_failure() {
    let data: Vec<u8> = (0u8..10).collect();
    let script = vec![
        Exchange {
            expect_instruction: 0xA4,
            expect_class: 0x00,
            expect_data: data.clone(),
            expect_reply_len: 8,
            answer: Err(MockError { too_large: Some(8) }),
        },
        // the intermediate chunk fails: the chain stops, its status is the
        // operation's answer, and no further exchange happens
        Exchange {
            expect_instruction: 0xA4,
            expect_class: 0x10,
            expect_data: data[0..8].to_vec(),
            expect_reply_len: 0,
            answer: Ok(vec![0x6A, 0x82]),
        },
    ];
    let mut engine = Iso7816Transport::new(MockTransport::new(script));
    let select = Iso7816Select::new(
        Iso7816SelectResolution::ByApplicationIdentifier(data.clone()),
        ReplyBuffer { capacity: 8, requested: 8 },
    );
    let err = engine.execute(select).expect("the engine itself succeeds").expect_err(
        "the aborting status is not success",
    );
    assert_eq!(err.status().as_u16(), 0x6A82);
    assert_eq!(err.data().len(), 0);
}

#[test]
fn simple_exchange_without_chunking() {
    let script = vec![Exchange {
        expect_instruction: 0xA4,
        expect_class: 0x00,
        expect_data: vec![0x3F, 0x00],
        expect_reply_len: 10,
        answer: Ok(vec![0x6F, 1, 7, 0x90, 0x00]),
    }];
    let mut engine = Iso7816Transport::new(MockTransport::new(script));
    let select = Iso7816Select::new(
        Iso7816SelectResolution::ByFileId([0x3F, 0x00]),
        ReplyBuffer { capacity: 10, requested: 10 },
    );
    let iter = engine.execute(select).unwrap().unwrap();
    let entry = iter.get(0x6F).unwrap();
    assert_eq!(entry.value(), &[7]);
}

#[test]
fn chunking_with_max_size_one() {
    let base = command(&[7, 8, 9], false);
    let mut chunker = base.chunk(1);
    let mut pieces: Vec<Iso7816Command> = Vec::new();
    while let Some(piece) = chunker.next() {
        pieces.push(piece);
    }
    assert_eq!(pieces.len(), 3);
    for piece in &pieces[0..2] {
        assert_eq!(piece.data.len(), 1);
        assert!(piece.class.is_chaining());
    }
    assert_eq!(pieces[2].data, vec![9]);
    assert!(!pieces[2].class.is_chaining());
}

#[test]
fn first_request_is_clamped_to_capacity() {
    // an operation asking for more than its own capacity is clamped
    let script = vec![Exchange {
        expect_instruction: 0xA4,
        expect_class: 0x00,
        expect_data: vec![0x3F, 0x00],
        expect_reply_len: 4,
        answer: Ok(vec![1, 2, 0x90, 0x00]),
    }];
    let mut engine = Iso7816Transport::new(MockTransport::new(script));
    let select = Iso7816Select::new(
        Iso7816SelectResolution::ByFileId([0x3F, 0x00]),
        ReplyBuffer { capacity: 4, requested: 64 },
    );
    assert!(engine.execute(select).unwrap().is_ok());
}
