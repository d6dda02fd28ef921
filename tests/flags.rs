use elm_ui::flag::{Field, Flag};

#[test]
fn flag_from_and_value_round_trip() {
    for i in 0..64u32 {
        let f = Flag::from(i);
        assert_eq!(f.value(), i);
    }
}

#[test]
fn field_add_then_present() {
    let mut f = Field::none();
    assert!(!f.present(&Flag::width()));
    f.add(&Flag::width());
    assert!(f.present(&Flag::width()));
    assert!(!f.present(&Flag::height()));
    f.add(&Flag::hover());
    assert!(f.present(&Flag::hover()));
    assert!(f.present(&Flag::width()));
}
