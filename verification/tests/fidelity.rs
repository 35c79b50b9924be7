//! Field fidelity round trip: a field of each supported kind, captured on
//! the producer side, crosses the dispatch queue and is observed by the
//! sink with a value equal to the original.

use async_drain::dispatch::{AsyncCore, MemorySink};
use async_drain::level::Level;
use async_drain::record::ContextFields;
use async_drain::serializer::ToSendSerializer;
use async_drain::value::OwnedValue;

#[test]
fn every_kind_survives_the_round_trip() {
    let mut ser = ToSendSerializer::new();
    ser.emit_bool("b", false);
    ser.emit_unit("u");
    ser.emit_none("n");
    ser.emit_char("c", 'q');
    ser.emit_u8("u8", 7);
    ser.emit_i8("i8", -7);
    ser.emit_u16("u16", 700);
    ser.emit_i16("i16", -700);
    ser.emit_u32("u32", 70_000);
    ser.emit_i32("i32", -70_000);
    ser.emit_u64("u64", 7_000_000_000);
    ser.emit_i64("i64", -7_000_000_000);
    ser.emit_usize("us", 3);
    ser.emit_isize("is", -3);
    ser.emit_f32_bits("f32", 0.5f32.to_bits());
    ser.emit_f64_bits("f64", 123.625f64.to_bits());
    ser.emit_str("s", "plain");
    ser.emit_rendered("r", "sum = 4".to_owned());

    let ctx = ContextFields::new(Vec::new());
    let mut core = AsyncCore::new(MemorySink::new());
    core.log(
        "round trip".to_owned(),
        Level::Trace,
        "f.rs".to_owned(),
        1,
        1,
        "f".to_owned(),
        "m".to_owned(),
        "t".to_owned(),
        &ctx,
        ser.finish(),
    )
    .unwrap();
    core.shutdown();

    let records = &core.sink().records;
    assert_eq!(records.len(), 1);
    let vals = &records[0].record_values;
    assert_eq!(vals.len(), 18);
    assert_eq!(vals[0].value, OwnedValue::Bool(false));
    assert_eq!(vals[1].value, OwnedValue::Unit);
    assert_eq!(vals[2].value, OwnedValue::Absent);
    assert_eq!(vals[3].value, OwnedValue::Char('q'));
    assert_eq!(vals[4].value, OwnedValue::U8(7));
    assert_eq!(vals[5].value, OwnedValue::I8(-7));
    assert_eq!(vals[6].value, OwnedValue::U16(700));
    assert_eq!(vals[7].value, OwnedValue::I16(-700));
    assert_eq!(vals[8].value, OwnedValue::U32(70_000));
    assert_eq!(vals[9].value, OwnedValue::I32(-70_000));
    assert_eq!(vals[10].value, OwnedValue::U64(7_000_000_000));
    assert_eq!(vals[11].value, OwnedValue::I64(-7_000_000_000));
    assert_eq!(vals[12].value, OwnedValue::Usize(3));
    assert_eq!(vals[13].value, OwnedValue::Isize(-3));
    match vals[14].value {
        OwnedValue::F32Bits(bits) => assert_eq!(f32::from_bits(bits), 0.5f32),
        _ => panic!("expected a 32-bit float bit pattern"),
    }
    match vals[15].value {
        OwnedValue::F64Bits(bits) => assert_eq!(f64::from_bits(bits), 123.625f64),
        _ => panic!("expected a 64-bit float bit pattern"),
    }
    assert_eq!(vals[16].value, OwnedValue::Str("plain".to_owned()));
    assert_eq!(vals[17].value, OwnedValue::Rendered("sum = 4".to_owned()));
    let keys: Vec<&str> = vals.iter().map(|e| e.key.as_str()).collect();
    assert_eq!(
        keys,
        vec![
            "b", "u", "n", "c", "u8", "i8", "u16", "i16", "u32", "i32", "u64", "i64", "us", "is",
            "f32", "f64", "s", "r"
        ]
    );
}
