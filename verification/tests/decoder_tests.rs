use erki_boy::instruction::Instruction;
use erki_boy::instruction::LoadType;
use erki_boy::instruction::LoadWordTarget;

#[test]
fn will_return_instruction() {
    for i in 0..0xFF {
        match i {
            0xD3 => {}
            0xDB => {}
            0xDD => {}
            0xE3 => {}
            0xE4 => {}
            0xEB => {}
            0xEC => {}
            0xED => {}
            0xF4 => {}
            0xFC => {}
            0xFD => {}

            0xCB => {}

            0x10 => {}
            _ => {
                assert_eq!(
                    Instruction::from_byte(i, false).is_none(),
                    false,
                    "Opcode 0x{:02X} returned None!",
                    i
                );
            }
        };
    }
}

#[test]
fn return_all_prefixed_instructions() {
    for i in 0..0xFF {
        assert_eq!(Instruction::from_byte(i, true).is_none(), false);
    }
}

#[test]
fn decode_load_sp_immediate_word() {
    assert_eq!(
        Instruction::from_byte(0x31, false),
        Some(Instruction::LD(LoadType::Word(LoadWordTarget::SP)))
    );
}

#[test]
fn decode_stop_and_prefix_byte() {
    assert_eq!(Instruction::from_byte(0x10, false), Some(Instruction::STOP));
    assert!(Instruction::from_byte(0xCB, false).is_none());
}

#[test]
fn unprefixed_table_rejects_only_illegal_slots() {
    let illegal = [0xD3u8, 0xDB, 0xDD, 0xE3, 0xE4, 0xEB, 0xEC, 0xED, 0xF4, 0xFC, 0xFD];
    for i in 0..=255u8 {
        let decoded = Instruction::from_byte(i, false);
        if illegal.contains(&i) || i == 0xCB {
            assert!(decoded.is_none());
        } else {
            assert!(decoded.is_some());
        }
    }
}
