use native_windows_gui::{Bitmap, BitmapState, OemBitmap, PlatformCall};

fn loaded(handle: usize) -> Bitmap {
    let mut bitmap = Bitmap::default();
    let result = Bitmap::builder()
        .source_system(Some(OemBitmap::Close))
        .build(&mut bitmap, |_: PlatformCall<'_>| Some(handle));
    assert_eq!(result, Ok(()));
    bitmap
}

#[test]
fn default_is_empty() {
    let bitmap = Bitmap::default();
    assert_eq!(bitmap.handle(), 0);
    assert!(!bitmap.owned());
    assert_eq!(bitmap.state(), BitmapState::Empty);
}

#[test]
fn built_bitmap_is_loaded() {
    let bitmap = loaded(0x5000);
    assert_eq!(bitmap.handle(), 0x5000);
    assert!(bitmap.owned());
    assert_eq!(bitmap.state(), BitmapState::Loaded);
}

#[test]
fn releasing_an_empty_bitmap_hands_back_nothing() {
    let mut bitmap = Bitmap::default();
    assert_eq!(bitmap.release(), None);
    assert_eq!(bitmap.release(), None);
    assert_eq!(bitmap.state(), BitmapState::Empty);
}

#[test]
fn releasing_a_loaded_bitmap_hands_back_its_handle_once() {
    let mut bitmap = loaded(0x77);
    assert_eq!(bitmap.release(), Some(0x77));
    assert_eq!(bitmap.handle(), 0);
    assert!(!bitmap.owned());
    assert_eq!(bitmap.state(), BitmapState::Empty);
    assert_eq!(bitmap.release(), None);
}

#[test]
fn bitmaps_of_one_handle_are_equal() {
    let first = loaded(0x1234);
    let second = loaded(0x1234);
    assert!(first == second);
    assert!(second == first);
}

#[test]
fn bitmaps_of_two_handles_differ() {
    let first = loaded(0x1234);
    let second = loaded(0x1238);
    assert!(first != second);
    assert!(first != Bitmap::default());
}

#[test]
fn equality_looks_at_the_handle_only() {
    let mut released = loaded(0x40);
    let _ = released.release();
    assert!(released == Bitmap::default());
    assert!(Bitmap::default() == Bitmap::default());
}

#[test]
fn borrowed_bitmap_holds_a_handle_it_does_not_own() {
    let bitmap = Bitmap::borrowed(0x2468);
    assert_eq!(bitmap.handle(), 0x2468);
    assert!(!bitmap.owned());
    assert_eq!(bitmap.state(), BitmapState::Borrowed);
}

#[test]
fn borrowed_null_handle_is_the_empty_bitmap() {
    let bitmap = Bitmap::borrowed(0);
    assert_eq!(bitmap.state(), BitmapState::Empty);
    assert!(bitmap == Bitmap::default());
}

#[test]
fn releasing_a_borrowed_bitmap_hands_back_nothing() {
    let mut bitmap = Bitmap::borrowed(0x2468);
    assert_eq!(bitmap.release(), None);
    assert_eq!(bitmap.handle(), 0);
    assert_eq!(bitmap.state(), BitmapState::Empty);
    assert_eq!(bitmap.release(), None);
}

#[test]
fn borrowed_and_loaded_bitmaps_of_one_handle_are_equal() {
    let borrowed = Bitmap::borrowed(0x1234);
    let owner = loaded(0x1234);
    assert!(borrowed == owner);
    assert!(borrowed != loaded(0x1235));
}
