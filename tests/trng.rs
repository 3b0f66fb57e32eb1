use imxrt10xx::controller::{Action, Continue, Delivery, ErrorCode, Phase, TRNG};
use imxrt10xx::cursor::EntropyCursor;
use imxrt10xx::regfile::RegisterFile;
use imxrt10xx::registers::{
    ent_val, insert_field, int_ent_val, is_set, prgm, rst_def, samp_mode, Field, Reg,
    SAMP_MODE_VON,
};

const ENT_VAL_BIT: u32 = 1 << 10;

fn controller() -> TRNG<u32> {
    TRNG::new()
}

fn index_of(acts: &[Action], a: Action) -> usize {
    acts.iter().position(|x| *x == a).unwrap()
}

#[test]
fn request_enters_program_mode_before_configuring() {
    let mut t = controller();
    for _ in 0..3 {
        let acts = t.get().unwrap();
        let set = index_of(&acts, Action::Modify(Reg::Mctl, prgm(), 1));
        let clear = index_of(&acts, Action::Modify(Reg::Mctl, prgm(), 0));
        let rst = index_of(&acts, Action::Modify(Reg::Mctl, rst_def(), 1));
        let samp = index_of(&acts, Action::Modify(Reg::Mctl, samp_mode(), SAMP_MODE_VON));
        assert!(set < rst && set < samp);
        assert!(rst < clear && samp < clear);
    }
}

#[test]
fn request_sequence_is_exact() {
    let mut t = controller();
    assert_eq!(t.phase(), Phase::Idle);
    let acts = t.get();
    assert_eq!(
        acts,
        Ok(vec![
            Action::EnableClock,
            Action::Modify(Reg::Mctl, Field { shift: 16, width: 1 }, 1),
            Action::Modify(Reg::Mctl, Field { shift: 6, width: 1 }, 1),
            Action::Modify(Reg::Mctl, Field { shift: 0, width: 2 }, 2),
            Action::Modify(Reg::Mctl, Field { shift: 16, width: 1 }, 0),
            Action::Read(Reg::Ent(15)),
        ])
    );
    assert_eq!(t.phase(), Phase::Running);
}

#[test]
fn later_consumer_replaces_earlier() {
    let mut t = controller();
    t.set_client(1);
    t.set_client(2);
    assert_eq!(t.client(), Some(2));
    assert_eq!(t.interrupt_handler(ENT_VAL_BIT), Delivery::Deliver(2));
}

#[test]
fn interrupt_without_consumer_is_dropped() {
    let t = controller();
    assert_eq!(t.interrupt_handler(ENT_VAL_BIT), Delivery::NoConsumer);
    assert_eq!(t.interrupt_handler(0), Delivery::NotReady);
}

#[test]
fn cursor_wraps_after_sixteen_words() {
    let mut c = EntropyCursor::new();
    for k in 0..16usize {
        assert_eq!(c.next_index(ENT_VAL_BIT), Some(k));
    }
    assert_eq!(c.next_index(ENT_VAL_BIT), Some(0));
    assert_eq!(c.next_index(ENT_VAL_BIT), Some(1));
}

#[test]
fn cursor_yields_nothing_without_valid_batch() {
    let mut c = EntropyCursor::new();
    assert_eq!(c.next_index(0), None);
    assert_eq!(c.next_index(!ENT_VAL_BIT), None);
    assert_eq!(c.next_index(ENT_VAL_BIT), Some(0));
}

#[test]
fn cancel_always_fails() {
    let mut t = controller();
    assert_eq!(t.cancel(), Err(ErrorCode::Fail));
    t.set_client(7);
    assert_eq!(t.cancel(), Err(ErrorCode::Fail));
    t.get().unwrap();
    assert_eq!(t.cancel(), Err(ErrorCode::Fail));
    t.entropy_consumed(Continue::Done);
    assert_eq!(t.cancel(), Err(ErrorCode::Fail));
}

#[test]
fn no_delivery_while_entropy_invalid() {
    let mut regs = RegisterFile::new();
    let mut t = controller();
    t.set_client(3);
    regs.perform_all(&t.get().unwrap());
    for _ in 0..5 {
        let mctl = regs.read(Reg::Mctl);
        assert_eq!(t.interrupt_handler(mctl), Delivery::NotReady);
        assert_eq!(t.phase(), Phase::Running);
    }
}

fn started() -> (RegisterFile, TRNG<u32>) {
    let mut regs = RegisterFile::new();
    let mut t = controller();
    t.set_client(9);
    let acts = t.get().unwrap();
    let mut reads = 0;
    for a in acts.iter() {
        if regs.perform(*a).is_some() {
            assert_eq!(*a, Action::Read(Reg::Ent(15)));
            reads += 1;
        }
    }
    assert_eq!(reads, 1);
    let mctl = regs.read(Reg::Mctl);
    assert_eq!(mctl, (1 << 6) | 2);
    for i in 0..16usize {
        regs.store(Reg::Ent(i), 0x1000 + i as u32);
    }
    regs.store(Reg::Mctl, mctl | ENT_VAL_BIT);
    (regs, t)
}

fn read_batch(regs: &RegisterFile) -> Vec<u32> {
    let mut c = EntropyCursor::new();
    let mut out = Vec::new();
    for _ in 0..16 {
        out.push(regs.next_entropy(&mut c).unwrap());
    }
    assert_eq!(regs.next_entropy(&mut c), Some(0x1000));
    out
}

#[test]
fn end_to_end_more_rearms_interrupt() {
    let (mut regs, mut t) = started();
    assert_eq!(t.interrupt_handler(regs.read(Reg::Mctl)), Delivery::Deliver(9));
    let words = read_batch(&regs);
    assert_eq!(words, (0..16u32).map(|i| 0x1000 + i).collect::<Vec<u32>>());
    let acts = t.entropy_consumed(Continue::More);
    regs.perform_all(&acts);
    assert!(is_set(regs.read(Reg::IntMask), int_ent_val()));
    assert!(is_set(regs.read(Reg::IntCtrl), int_ent_val()));
    assert!(!is_set(regs.read(Reg::Mctl), prgm()));
    assert_eq!(t.phase(), Phase::Running);
}

#[test]
fn end_to_end_done_halts_generator() {
    let (mut regs, mut t) = started();
    assert_eq!(t.interrupt_handler(regs.read(Reg::Mctl)), Delivery::Deliver(9));
    read_batch(&regs);
    let acts = t.entropy_consumed(Continue::Done);
    assert_eq!(acts, vec![Action::Modify(Reg::Mctl, prgm(), 1)]);
    regs.perform_all(&acts);
    assert!(is_set(regs.read(Reg::Mctl), prgm()));
    assert_eq!(regs.read(Reg::IntMask), 0);
    assert_eq!(regs.read(Reg::IntCtrl), 0);
    assert_eq!(t.phase(), Phase::Programming);
}

#[test]
fn insert_field_keeps_other_bits() {
    assert_eq!(insert_field(0xFFFF_FFFF, samp_mode(), 2), 0xFFFF_FFFE);
    assert_eq!(insert_field(0, samp_mode(), 7), 3);
    assert_eq!(insert_field(0x0001_0040, prgm(), 0), 0x40);
    assert_eq!(insert_field(0x40, prgm(), 1), 0x0001_0040);
}

#[test]
fn is_set_reads_one_field() {
    assert!(is_set(ENT_VAL_BIT, ent_val()));
    assert!(!is_set(!ENT_VAL_BIT, ent_val()));
    assert!(is_set(2, samp_mode()));
}

#[test]
fn register_offsets_match_hardware() {
    assert_eq!(Reg::Mctl.offset(), 0x000);
    assert_eq!(Reg::Scmisc.offset(), 0x004);
    assert_eq!(Reg::Status.offset(), 0x03C);
    assert_eq!(Reg::Ent(0).offset(), 0x040);
    assert_eq!(Reg::Ent(15).offset(), 0x07C);
    assert_eq!(Reg::IntCtrl.offset(), 0x0B4);
    assert_eq!(Reg::IntMask.offset(), 0x0B8);
    assert_eq!(Reg::IntStatus.offset(), 0x0BC);
}
