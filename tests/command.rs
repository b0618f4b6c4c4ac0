use iso7816::class::Class;
use iso7816::command::writer::Error;
use iso7816::command::{
    parse_lengths, BufferFull, CommandBuilder, CommandView, ExpectedLen, FromSliceError, Writer,
};
use iso7816::{Command, Instruction};

fn hex(s: &str) -> Vec<u8> {
    let digits: Vec<u8> = s.bytes().filter(|c| !c.is_ascii_whitespace()).collect();
    digits
        .chunks(2)
        .map(|pair| u8::from_str_radix(std::str::from_utf8(pair).unwrap(), 16).unwrap())
        .collect()
}

fn concat(parts: &[&[u8]]) -> Vec<u8> {
    parts.iter().flat_map(|p| p.iter().copied()).collect()
}

/// A writer with a fixed capacity, failing once it is full.
struct Bounded {
    data: Vec<u8>,
    capacity: usize,
}

impl Bounded {
    fn new(capacity: usize) -> Self {
        Bounded { data: Vec::new(), capacity }
    }

    fn capacity(&self) -> usize {
        self.capacity
    }

    fn clear(&mut self) {
        self.data.clear();
    }
}

impl Writer for Bounded {
    type Error = BufferFull;

    fn write(&mut self, data: &[u8]) -> Result<usize, BufferFull> {
        let amt = data.len().min(self.capacity - self.data.len());
        if amt == 0 {
            return Err(BufferFull::BufferFull);
        }
        self.data.extend_from_slice(&data[..amt]);
        Ok(amt)
    }
}

fn cla(byte: u8) -> Class {
    Class::from_byte(byte).unwrap()
}

#[test]
fn builder_forced_extended() {
    let cla = cla(0);
    let ins = Instruction::from(1);
    let command = CommandBuilder::new(cla, ins, 2, 3, &[], ExpectedLen::Ne(0x04)).force_extended();
    assert_eq!(command.serialize_to_vec(), hex("00 01 02 03 00 00 04"));

    let command =
        CommandBuilder::new(cla, ins, 2, 3, &[0x05, 0x06], ExpectedLen::Ne(0x04)).force_extended();
    assert_eq!(command.serialize_to_vec(), hex("00 01 02 03 00 00 02 05 06 00 04"));

    let command =
        CommandBuilder::new(cla, ins, 2, 3, &[0x01; 0x2AE], ExpectedLen::Ne(0x100)).force_extended();
    assert_eq!(
        command.serialize_to_vec(),
        concat(&[&hex("00 01 02 03 00 02AE"), &[0x01; 0x2AE], &hex("01 00")])
    );
}

#[test]
fn builder() {
    let cla = cla(0);
    let ins = Instruction::from(1);
    let command = CommandBuilder::new(cla, ins, 2, 3, &[], ExpectedLen::Ne(0x04));
    assert_eq!(command.serialize_to_vec(), hex("00 01 02 03 04"));

    let command = CommandBuilder::new(cla, ins, 2, 3, &[], ExpectedLen::Ne(0x00));
    assert_eq!(command.serialize_to_vec(), hex("00 01 02 03"));

    let command = CommandBuilder::new(cla, ins, 2, 3, &[], ExpectedLen::Ne(256));
    assert_eq!(command.serialize_to_vec(), hex("00 01 02 03 00"));
    let command = CommandBuilder::new(cla, ins, 2, 3, &[], ExpectedLen::Ne(257));
    assert_eq!(command.serialize_to_vec(), hex("00 01 02 03 00 0101"));
    let command = CommandBuilder::new(cla, ins, 2, 3, &[], ExpectedLen::Ne(0xFFFF));
    assert_eq!(command.serialize_to_vec(), hex("00 01 02 03 00 FFFF"));

    let command = CommandBuilder::new(cla, ins, 2, 3, &[0x05, 0x06], ExpectedLen::Ne(0x04));
    assert_eq!(command.serialize_to_vec(), hex("00 01 02 03 02 05 06 04"));

    let command = CommandBuilder::new(cla, ins, 2, 3, &[0x05, 0x06], ExpectedLen::Ne(0x00));
    assert_eq!(command.serialize_to_vec(), hex("00 01 02 03 02 05 06"));

    let command = CommandBuilder::new(cla, ins, 2, 3, &[0x05, 0x06], ExpectedLen::Ne(0x100));
    assert_eq!(command.serialize_to_vec(), hex("00 01 02 03 02 05 06 00"));

    let command = CommandBuilder::new(cla, ins, 2, 3, &[0x01; 0x2AE], ExpectedLen::Ne(0x100));
    assert_eq!(
        command.serialize_to_vec(),
        concat(&[&hex("00 01 02 03 00 02AE"), &[0x01; 0x2AE], &hex("01 00")])
    );

    let command = CommandBuilder::new(cla, ins, 2, 3, &[0x01; 0x2AE], ExpectedLen::Ne(0x01));
    assert_eq!(
        command.serialize_to_vec(),
        concat(&[&hex("00 01 02 03 00 02AE"), &[0x01; 0x2AE], &hex("00 01")])
    );

    let command = CommandBuilder::new(cla, ins, 2, 3, &[0x01; 0x2AE], ExpectedLen::Ne(0x00));
    assert_eq!(
        command.serialize_to_vec(),
        concat(&[&hex("00 01 02 03 00 02AE"), &[0x01; 0x2AE]])
    );

    let command = CommandBuilder::new(cla, ins, 2, 3, &[0x01; 0x2AE], ExpectedLen::Ne(0xFF));
    assert_eq!(
        command.serialize_to_vec(),
        concat(&[&hex("00 01 02 03 00 02AE"), &[0x01; 0x2AE], &[0x00, 0xFF]])
    );

    let command = CommandBuilder::new(cla, ins, 2, 3, &[0x01; 0xFFFF], ExpectedLen::Ne(0xFFFF));
    assert_eq!(
        command.serialize_to_vec(),
        concat(&[&hex("00 01 02 03 00 FFFF"), &[0x01; 0xFFFF], &[0xFF, 0xFF]])
    );

    let command = CommandBuilder::new(cla, ins, 2, 3, &[1, 2, 3, 4], ExpectedLen::Ne(294));
    assert_eq!(command.serialize_to_vec(), hex("00 01 02 03 00 00 04 01020304 0126"));
}

#[test]
fn building_chained() {
    let cla = cla(0x00);
    let ins = Instruction::from(0x01);
    let mut buffer = Bounded::new(4096);
    let command = CommandBuilder::new(cla, ins, 2, 3, &[], ExpectedLen::Ne(0xFFFF));
    command.clone().serialize_into(&mut buffer).unwrap();
    assert_eq!(buffer.data, command.clone().serialize_to_vec());

    buffer.clear();
    //  without extended length
    let command =
        CommandBuilder::new_non_extended(cla, ins, 2, 3, &[], 0xFFFF, Some(buffer.capacity()))
            .next()
            .unwrap();
    command.clone().serialize_into(&mut buffer).unwrap();
    assert_eq!(
        buffer.data,
        CommandBuilder::new(cla, ins, 2, 3, &[], ExpectedLen::Ne(0x0100)).serialize_to_vec()
    );

    buffer.clear();
    //  without extended length
    let command = CommandBuilder::new_non_extended(cla, ins, 2, 3, &[], 0, Some(buffer.capacity()))
        .next()
        .unwrap();
    command.serialize_into(&mut buffer).unwrap();
    assert_eq!(
        buffer.data,
        CommandBuilder::new(cla, ins, 2, 3, &[], ExpectedLen::Ne(0)).serialize_to_vec()
    );
    buffer.clear();

    let mut buffer = Bounded::new(105);

    let mut command_iter =
        CommandBuilder::new_non_extended(cla, ins, 2, 3, &[5; 200], 0, Some(buffer.capacity()));
    let command = command_iter.next().unwrap();
    let rem = command_iter.next().unwrap();
    assert!(command_iter.next().is_none());
    command.serialize_into(&mut buffer).unwrap();
    assert_eq!(buffer.data.len(), 105);
    // the rest equals the builder of its data, the encoding policy aside
    assert_eq!(rem.data(), [5; 100].as_slice());
    let rem_bytes = rem.serialize_to_vec();
    let reference = CommandBuilder::new(cla, ins, 2, 3, [5; 100].as_slice(), ExpectedLen::Ne(0));
    assert_eq!(CommandView::try_from(&rem_bytes).unwrap(), reference);
    assert_eq!(rem_bytes, reference.serialize_to_vec());
    assert_eq!(
        buffer.data,
        CommandBuilder::new(cla.as_chained(), ins, 2, 3, &[5; 100], ExpectedLen::Ne(0))
            .serialize_to_vec()
    );
}

#[test]
fn nested_commands() {
    let cla = cla(0x00);
    let ins = Instruction::from(0x01);
    let mut buffer = Bounded::new(4096);
    let inner_data = [0xFF, 0xFE, 0xFD, 0xFC, 0xFB, 0xFA];
    let inner = CommandBuilder::new(cla, ins, 1, 2, &inner_data, ExpectedLen::Ne(0x10));
    let outer = CommandBuilder::new(cla, Instruction::from(0xAA), 3, 4, &inner, ExpectedLen::Ne(0x20));
    outer.serialize_into(&mut buffer).unwrap();
    assert_eq!(
        buffer.data,
        hex("00 AA 0304 0C
                00 01 01 02 06  FFFEFDFCFBFA 10
             20")
    );
}

#[test]
fn lengths_4s() {
    let data = &[0x02, 0xB6, 0x00, 0x00];
    let lengths = parse_lengths(data).expect("failed to parse lengths");
    assert_eq!(lengths.lc, 2);
    assert_eq!(lengths.le, 256);
    assert_eq!(lengths.offset, 1);
}

#[test]
fn command_chaining() {
    let apdu = &[
        0x10, 0xdb, 0x3f, 0xff, 0xff, 0x5c, 0x03, 0x5f, 0xc1, 0x05, 0x53, 0x82, 0x01, 0x5b,
        0x70, 0x82, 0x01, 0x52, 0x30, 0x82, 0x01, 0x4e, 0x30, 0x81, 0xf5, 0xa0, 0x03, 0x02,
        0x01, 0x02, 0x02, 0x11, 0x00, 0x8b, 0xab, 0x31, 0xcf, 0x3e, 0xb9, 0xf5, 0x6a, 0x6f,
        0x38, 0xf0, 0x5a, 0x4d, 0x7f, 0x55, 0x62, 0x30, 0x0a, 0x06, 0x08, 0x2a, 0x86, 0x48,
        0xce, 0x3d, 0x04, 0x03, 0x02, 0x30, 0x2a, 0x31, 0x16, 0x30, 0x14, 0x06, 0x03, 0x55,
        0x04, 0x0a, 0x13, 0x0d, 0x79, 0x75, 0x62, 0x69, 0x6b, 0x65, 0x79, 0x2d, 0x61, 0x67,
        0x65, 0x6e, 0x74, 0x31, 0x10, 0x30, 0x0e, 0x06, 0x03, 0x55, 0x04, 0x0b, 0x13, 0x07,
        0x28, 0x64, 0x65, 0x76, 0x65, 0x6c, 0x29, 0x30, 0x20, 0x17, 0x0d, 0x32, 0x30, 0x30,
        0x35, 0x31, 0x36, 0x30, 0x31, 0x31, 0x37, 0x32, 0x36, 0x5a, 0x18, 0x0f, 0x32, 0x30,
        0x36, 0x32, 0x30, 0x35, 0x31, 0x36, 0x30, 0x32, 0x31, 0x37, 0x32, 0x36, 0x5a, 0x30,
        0x12, 0x31, 0x10, 0x30, 0x0e, 0x06, 0x03, 0x55, 0x04, 0x03, 0x13, 0x07, 0x53, 0x53,
        0x48, 0x20, 0x6b, 0x65, 0x79, 0x30, 0x59, 0x30, 0x13, 0x06, 0x07, 0x2a, 0x86, 0x48,
        0xce, 0x3d, 0x02, 0x01, 0x06, 0x08, 0x2a, 0x86, 0x48, 0xce, 0x3d, 0x03, 0x01, 0x07,
        0x03, 0x42, 0x00, 0x04, 0x4f, 0x98, 0x63, 0x2f, 0x53, 0xbd, 0xab, 0xee, 0xbf, 0x69,
        0x73, 0x3a, 0x84, 0x0f, 0xfd, 0x9f, 0x9d, 0xb3, 0xce, 0x5c, 0x1e, 0x1b, 0x84, 0x06,
        0x63, 0x32, 0xff, 0x9c, 0x44, 0x0b, 0xce, 0x56, 0x13, 0x94, 0x00, 0x98, 0xe3, 0x46,
        0xc2, 0xbc, 0x3d, 0xe6, 0x5e, 0xf2, 0x81, 0x4b, 0xbc, 0xea, 0x2b, 0x9d, 0x47, 0xcc,
        0x9b, 0x5e, 0xbe, 0x1e, 0x2c, 0x69, 0x1d, 0xc3, 0x53, 0x4c, 0x89, 0x14, 0xa3, 0x12,
        0x30, 0x10, 0x30, 0x0e, 0x06, 0x03, 0x55, 0x1d,
    ];

    let _command = Command::<256>::try_from(apdu).unwrap();
}

#[test]
fn lc_oob() {
    let apdu = hex("00C00000 00FF");
    let _ = Command::<256>::try_from(&apdu);
    let apdu = hex("00C00000 0000");
    let _ = Command::<256>::try_from(&apdu);
}

#[test]
fn case_coverage() {
    let l = parse_lengths(&[]).unwrap();
    assert_eq!((l.lc, l.le, l.offset, l.extended), (0, 0, 0, false));
    let l = parse_lengths(&[0x04]).unwrap();
    assert_eq!((l.lc, l.le), (0, 4));
    let l = parse_lengths(&[0x00]).unwrap();
    assert_eq!((l.lc, l.le), (0, 256));
    let l = parse_lengths(&[0x02, 0xB6, 0x00, 0x00]).unwrap();
    assert_eq!((l.lc, l.le, l.offset), (2, 256, 1));
    let l = parse_lengths(&[0x00, 0x00, 0x04]).unwrap();
    assert_eq!((l.lc, l.le, l.offset, l.extended), (0, 4, 0, true));
    let l = parse_lengths(&[0x00, 0x00, 0x00]).unwrap();
    assert_eq!(l.le, 65536);
    let l = parse_lengths(&[0x02, 0xAA, 0xBB]).unwrap();
    assert_eq!((l.lc, l.le, l.offset, l.extended), (2, 0, 1, false));
    let l = parse_lengths(&[0x00, 0x00, 0x02, 0xAA, 0xBB]).unwrap();
    assert_eq!((l.lc, l.le, l.offset, l.extended), (2, 0, 3, true));
    let l = parse_lengths(&[0x00, 0x00, 0x02, 0xAA, 0xBB, 0x01, 0x00]).unwrap();
    assert_eq!((l.lc, l.le, l.offset, l.extended), (2, 256, 3, true));
    let l = parse_lengths(&[0x00, 0x00, 0x02, 0xAA, 0xBB, 0x00, 0x00]).unwrap();
    assert_eq!(l.le, 65536);
}

#[test]
fn mixed_encoding_rejected() {
    // Lc 3 with two data bytes: matches no short case, and the first byte is not zero
    assert_eq!(
        parse_lengths(&[0x03, 0xAA, 0xBB]),
        Err(FromSliceError::InvalidFirstBodyByteForExtended)
    );
    // extended marker with a length that matches no extended case
    assert_eq!(
        parse_lengths(&[0x00, 0x00, 0x05, 0xAA]),
        Err(FromSliceError::InvalidSliceLength)
    );
    assert_eq!(parse_lengths(&[0x00, 0x01]), Err(FromSliceError::InvalidSliceLength));
}

#[test]
fn decode_errors() {
    assert_eq!(CommandView::try_from(&[0x00, 0x01, 0x02]), Err(FromSliceError::TooShort));
    assert_eq!(CommandView::try_from(&[0xFF, 0x01, 0x02, 0x03]), Err(FromSliceError::InvalidClass));
    assert_eq!(
        Command::<2>::try_from(&[0x00, 0x01, 0x02, 0x03, 0x03, 0xAA, 0xBB, 0xCC]),
        Err(FromSliceError::TooLong)
    );
    let command = Command::<3>::try_from(&[0x00, 0x01, 0x02, 0x03, 0x03, 0xAA, 0xBB, 0xCC]).unwrap();
    assert_eq!(command.data().as_slice(), &[0xAA, 0xBB, 0xCC]);
    assert_eq!(command.expected(), 0);
    assert!(!command.extended());
}

#[test]
fn view_fields() {
    let apdu = hex("84 A4 04 0C 02 3F00 10");
    let view = CommandView::try_from(&apdu).unwrap();
    assert_eq!(view.class().into_inner(), 0x84);
    assert_eq!(view.instruction(), Instruction::Select);
    assert_eq!((view.p1(), view.p2()), (0x04, 0x0C));
    assert_eq!(view.data(), &[0x3F, 0x00]);
    assert_eq!(view.expected(), 0x10);
    assert!(!view.extended());
    let owned = view.to_owned::<16>().unwrap();
    assert_eq!(owned.as_view(), view);
    assert_eq!(view.to_owned::<1>(), Err(FromSliceError::TooLong));
}

#[test]
fn round_trip_extended() {
    let data: Vec<u8> = (0..300u32).map(|i| i as u8).collect();
    for le in [0u16, 1, 255, 256, 257, 0xFFFF] {
        for len in [0usize, 1, 255, 256, 300] {
            let builder =
                CommandBuilder::new(cla(0x80), Instruction::from(0xCB), 0x3F, 0xFF, &data[..len], ExpectedLen::Ne(le));
            let bytes = builder.clone().serialize_to_vec();
            assert_eq!(bytes.len(), builder.required_len());
            let view = CommandView::try_from(&bytes).unwrap();
            assert_eq!(view.data(), &data[..len]);
            assert_eq!(view.expected(), le as usize);
            assert_eq!(view, builder);
            assert_eq!(builder, view);
        }
    }
    // the maximum is read back as 65536
    let builder = CommandBuilder::new(cla(0), Instruction::from(1), 2, 3, &[1, 2], ExpectedLen::Max);
    let bytes = builder.clone().serialize_to_vec();
    assert_eq!(bytes, hex("00 01 02 03 00 0002 0102 0000"));
    let view = CommandView::try_from(&bytes).unwrap();
    assert_eq!(view.expected(), 65536);
    assert_eq!(view, builder);
    assert_eq!(builder, view);
}

#[test]
fn short_length_truncation() {
    let mut iter =
        CommandBuilder::new_non_extended(cla(0), Instruction::from(0xB0), 0, 0, &[7; 10], 1000, None);
    let command = iter.next().unwrap();
    assert!(iter.next().is_none());
    let bytes = command.serialize_to_vec();
    assert_eq!(bytes, hex("00 B0 00 00 0A 07070707070707070707 00"));
    let view = CommandView::try_from(&bytes).unwrap();
    assert_eq!(view.expected(), 256);
    assert!(!view.extended);
}

#[test]
fn chaining_reassembles() {
    let data: Vec<u8> = (0..1000u32).map(|i| (i * 7) as u8).collect();
    let cla = cla(0x00);
    let ins = Instruction::from(0xDB);
    // with extended support, splitting by hand
    let whole = CommandBuilder::new(cla, ins, 0x3F, 0xFF, data.as_slice(), ExpectedLen::Ne(300));
    let mut payload = Vec::new();
    let mut acc: Option<Command<2000>> = None;
    let mut current = whole.clone();
    let mut count = 0;
    loop {
        let (now, rest) = match current.should_split(64) {
            Some((now, rest)) => (now, Some(rest)),
            None => (current.clone(), None),
        };
        let bytes = now.clone().serialize_to_vec();
        assert!(bytes.len() <= 64);
        let view = CommandView::try_from(&bytes).unwrap();
        assert_eq!(view, now);
        payload.extend_from_slice(view.data());
        match &mut acc {
            Some(partial) => partial.extend_from_command_view(view).unwrap(),
            None => acc = Some(view.to_owned().unwrap()),
        }
        count += 1;
        match rest {
            Some(rest) => current = rest,
            None => break,
        }
    }
    assert!(count > 1);
    assert_eq!(payload, data);
    let acc = acc.unwrap();
    assert_eq!(acc.as_view(), whole);
    assert_eq!(acc.class().into_inner(), 0x00);
    assert_eq!(acc.expected(), 300);
    assert!(acc.extended());

    // without extended support, through the iterator
    let mut iter = CommandBuilder::new_non_extended(cla, ins, 1, 2, data.as_slice(), 0x10, Some(100));
    let mut acc: Option<Command<2000>> = None;
    let mut fragments = 0;
    while let Some(command) = iter.next() {
        let bytes = command.serialize_to_vec();
        assert!(bytes.len() <= 100);
        let view = CommandView::try_from(&bytes).unwrap();
        assert!(!view.extended);
        match &mut acc {
            Some(partial) => partial.extend_from_command_view(view).unwrap(),
            None => acc = Some(view.to_owned().unwrap()),
        }
        fragments += 1;
    }
    assert_eq!(fragments, 11);
    let acc = acc.unwrap();
    assert_eq!(acc.data().as_slice(), data.as_slice());
    assert_eq!(acc.expected(), 0x10);
    assert_eq!((acc.p1(), acc.p2()), (1, 2));
    assert!(acc.class().chain().last_or_only());
}

#[test]
fn chained_fragments_carry_chained_class() {
    let data = [9u8; 20];
    let builder = CommandBuilder::new(cla(0x00), Instruction::from(0x01), 0, 0, data.as_slice(), ExpectedLen::Ne(5));
    let (now, later) = builder.should_split(14).unwrap();
    assert_eq!(now.data(), &[9u8; 8]);
    assert_eq!(later.data(), &[9u8; 12]);
    let now_bytes = now.serialize_to_vec();
    assert_eq!(now_bytes.len(), 13);
    assert_eq!(now_bytes, hex("10 01 00 00 08 0909090909090909"));
    assert!(CommandView::try_from(&now_bytes).unwrap().class().chain().not_the_last());
    assert_eq!(
        later.serialize_to_vec(),
        hex("00 01 00 00 0C 090909090909090909090909 05")
    );
    assert!(builder.should_split(100).is_none());
}

#[test]
fn reassembly_overflow_keeps_data() {
    let first = CommandView::try_from(&[0x10, 0x01, 0x02, 0x03, 0x02, 0xAA, 0xBB]).unwrap();
    let mut acc = first.to_owned::<3>().unwrap();
    let second_bytes = [0x00, 0x05, 0x06, 0x07, 0x02, 0xCC, 0xDD, 0x20];
    let second = CommandView::try_from(&second_bytes).unwrap();
    assert_eq!(acc.extend_from_command_view(second), Err(()));
    assert_eq!(acc.data().as_slice(), &[0xAA, 0xBB]);
    assert_eq!(acc.instruction(), Instruction::from(0x05));
    assert_eq!(acc.expected(), 0x20);
    assert!(acc.extended());
    let mut acc = first.to_owned::<4>().unwrap();
    let other = Command::<4>::try_from(&second_bytes).unwrap();
    assert_eq!(acc.extend_from_command(&other), Ok(()));
    assert_eq!(acc.data().as_slice(), &[0xAA, 0xBB, 0xCC, 0xDD]);
    acc.data_mut()[0] = 0xEE;
    acc.set_p1(0x42);
    acc.set_p2(0x43);
    acc.set_extended(false);
    assert_eq!((acc.p1(), acc.p2(), acc.extended()), (0x42, 0x43, false));
    assert_eq!(acc.data().as_slice(), &[0xEE, 0xBB, 0xCC, 0xDD]);
}

#[test]
fn sink_errors_are_reported() {
    let builder = CommandBuilder::new(cla(0), Instruction::from(1), 2, 3, &[1, 2, 3], ExpectedLen::Ne(4));
    let mut small = Bounded::new(6);
    assert!(matches!(builder.serialize_into(&mut small), Err(BufferFull::BufferFull)));
    let mut exact = Bounded::new(builder.required_len());
    assert!(builder.serialize_into(&mut exact).is_ok());
    assert_eq!(exact.data, hex("00 01 02 03 03 010203 04"));
    let err = BufferFull::failed_serialization("too long");
    assert_eq!(err.message(), "too long");
    assert_eq!(BufferFull::BufferFull.message(), "Buffer is full");
}

#[test]
fn decoding_through_try_into() {
    let apdu = [0x00u8, 0xB0, 0x00, 0x00, 0x10];
    let view: CommandView = apdu.as_slice().try_into().unwrap();
    assert_eq!(view.expected(), 0x10);
    let command: Command<4> = apdu.as_slice().try_into().unwrap();
    assert_eq!(command.as_view(), view);
    let short: Result<CommandView, FromSliceError> = apdu[..3].try_into();
    assert_eq!(short, Err(FromSliceError::TooShort));
}

#[test]
fn expected_len_conversions() {
    assert_eq!(ExpectedLen::from(7u16), ExpectedLen::Ne(7));
    assert_eq!(usize::from(ExpectedLen::Ne(300)), 300);
    assert_eq!(usize::from(ExpectedLen::Max), 65536);
}
