use winsafe::handles::ERROR;
use winsafe::msg::{lp_to_point, point_to_lp, AddBitmap, AddButtons, TBADDBITMAP, TBBUTTON, POINT, WndMsg};

#[test]
fn point_packs_into_words() {
    assert_eq!(point_to_lp(POINT::new(3, 5)), 3 + 5 * 65536);
    assert_eq!(point_to_lp(POINT::new(0, 0)), 0);
    assert_eq!(point_to_lp(POINT::new(-1, 0)), 0xFFFF);
    assert_eq!(point_to_lp(POINT::new(0x1_0002, 1)), 2 + 65536);
}

#[test]
fn parameter_unpacks_to_point() {
    let m = WndMsg { msg_id: 0x0201, wparam: 0, lparam: 7 + 9 * 65536 };
    assert_eq!(lp_to_point(m), POINT { x: 7, y: 9 });
    let m = WndMsg { msg_id: 0x0201, wparam: 0, lparam: point_to_lp(POINT::new(640, 480)) };
    assert_eq!(lp_to_point(m), POINT { x: 640, y: 480 });
    let m = WndMsg { msg_id: 0x0201, wparam: 0, lparam: point_to_lp(POINT::new(-1, 2)) };
    assert_eq!(lp_to_point(m), POINT { x: 0xFFFF, y: 2 });
}

#[test]
fn toolbar_return_values() {
    let info = TBADDBITMAP { hInst: 0, nID: 1 };
    let m = AddBitmap { num_images: 4, info: &info };
    assert_eq!(m.convert_ret(-1), Err(ERROR { raw: 160 }));
    assert_eq!(m.convert_ret(3), Ok(3));
    let mut buttons = vec![TBBUTTON { iBitmap: 0, idCommand: 1, fsState: 4, fsStyle: 0, dwData: 0, iString: 0 }];
    let b = AddButtons { buttons: &mut buttons };
    assert_eq!(b.convert_ret(0), Err(ERROR { raw: 160 }));
    assert_eq!(b.convert_ret(1), Ok(()));
}
