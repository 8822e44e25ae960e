use kernel_core::framebuffer::{initial_fill, FB, RGBA};
use kernel_core::st::Key;

#[test]
fn new_framebuffer_holds_a_gradient() {
    let fb = FB::new(300, 260);
    assert_eq!((fb.w, fb.h), (300, 260));
    assert_eq!(fb.pixels.len(), 300 * 260);
    assert_eq!(fb.backbuffer, fb.pixels);
    assert_eq!(fb.pixels[0], RGBA { r: 0, g: 0, b: 0, a: 0 });
    assert_eq!(fb.pixels[7], RGBA { r: 7, g: 0, b: 0, a: 0 });
    assert_eq!(fb.pixels[300 * 5 + 299], RGBA { r: 43, g: 5, b: 0, a: 0 });
    assert_eq!(fb.pixels[300 * 259 + 256], RGBA { r: 0, g: 3, b: 0, a: 0 });
    let empty = FB::new(0, 10);
    assert!(empty.pixels.is_empty());
}

#[test]
fn share_lends_the_pixels() {
    let mut fb = FB::new(2, 2);
    {
        let share = fb.share();
        assert_eq!((share.w, share.h), (2, 2));
        assert_eq!(share.pixels.len(), 4);
        share.pixels[3] = RGBA { r: 1, g: 2, b: 3, a: 4 };
    }
    assert_eq!(fb.pixels[3], RGBA { r: 1, g: 2, b: 3, a: 4 });
    assert_eq!(fb.backbuffer[3], RGBA { r: 1, g: 1, b: 0, a: 0 });
}

#[test]
fn update_retargets_the_pixels() {
    let mut fb = FB::new(2, 2);
    let back = fb.backbuffer.clone();
    fb.update(vec![initial_fill(); 6], 3, 2);
    assert_eq!((fb.w, fb.h), (3, 2));
    assert_eq!(fb.pixels, vec![RGBA { r: 100, g: 120, b: 140, a: 125 }; 6]);
    assert_eq!(fb.backbuffer, back);
}

#[test]
fn flush_writes_red_green_blue_alpha() {
    let mut fb = FB::new(2, 1);
    fb.pixels[1] = RGBA { r: 9, g: 8, b: 7, a: 6 };
    assert_eq!(fb.flush(), vec![0, 0, 0, 0, 9, 8, 7, 6]);
}

#[test]
fn keys_type_characters() {
    assert_eq!(Key::KeyA.char(), Some('a'));
    assert_eq!(Key::KeyZ.char(), Some('z'));
    assert_eq!(Key::Key0.char(), Some('0'));
    assert_eq!(Key::Key9.char(), Some('9'));
    assert_eq!(Key::KeyMinus.char(), Some('-'));
    assert_eq!(Key::KeyLeftBrace.char(), Some('{'));
    assert_eq!(Key::KeyRightBrace.char(), Some('}'));
    assert_eq!(Key::KeySemicolon.char(), Some(';'));
    assert_eq!(Key::KeyComma.char(), Some(','));
    assert_eq!(Key::KeySlash.char(), Some('/'));
    assert_eq!(Key::KeyBackslash.char(), Some('\\'));
    assert_eq!(Key::KeyEnter.char(), Some('\n'));
    assert_eq!(Key::KeySpace.char(), Some(' '));
    assert_eq!(Key::Esc.char(), None);
    assert_eq!(Key::KeyDot.char(), None);
    assert_eq!(Key::KeyEqual.char(), None);
    assert_eq!(Key::BtnLeft.char(), None);
    assert_eq!(Key::KeyF1.char(), None);
}

#[test]
fn key_codes() {
    assert_eq!(Key::Reserved.code(), 0);
    assert_eq!(Key::KeyA.code(), 30);
    assert_eq!(Key::KeyKpDot.code(), 83);
    assert_eq!(Key::KeyZenkakuHankaku.code(), 85);
    assert_eq!(Key::KeyMax.code(), 195);
    assert_eq!(Key::BtnLeft.code(), 0x110);
    assert_eq!(Key::BtnSide.code(), 0x113);
    assert_eq!(Key::from_code(30), Some(Key::KeyA));
    assert_eq!(Key::from_code(84), None);
    assert_eq!(Key::from_code(196), None);
    assert_eq!(Key::from_code(0x112), Some(Key::BtnMiddle));
    for code in 0..1024usize {
        if let Some(key) = Key::from_code(code) {
            assert_eq!(key.code(), code);
        }
    }
}
