use text_fixer::icon::{
    get_prev_window_icon_png, get_window_icon, hicon_to_png, IconError, IconReply, IconRequest,
    IconSession, IconSize, ICON_BYTES, ICON_HEIGHT, ICON_WIDTH,
};
use text_fixer::platform::Platform;
use text_fixer::raster::Raster;
use text_fixer::snapshot::WindowSnapshot;

fn notepad() -> Option<WindowSnapshot> {
    Some(WindowSnapshot {
        id: 77,
        title: "Untitled - Notepad".to_string(),
        process_id: 4242,
        name: "Notepad".to_string(),
        x: 0,
        y: 0,
        width: 640,
        height: 480,
    })
}

fn drive(mut session: IconSession, replies: &[IconReply]) -> Vec<IconRequest> {
    let mut made = vec![session.pending];
    for reply in replies {
        session = session.step(*reply);
        made.push(session.pending);
    }
    made
}

/// A stand-in for the system that counts the handles it has handed out and
/// not got back.
fn leaked(made: &[IconRequest], replies: &[IconReply]) -> Vec<String> {
    let mut held: Vec<String> = Vec::new();
    for (request, reply) in made.iter().zip(replies.iter()) {
        match (request, reply) {
            (IconRequest::IconInfo { .. }, IconReply::Bitmaps { color, mask }) => {
                for bitmap in [color, mask] {
                    let name = format!("bitmap {}", bitmap);
                    if *bitmap != 0 && !held.contains(&name) {
                        held.push(name);
                    }
                }
            }
            (IconRequest::ScreenDc, IconReply::Handle(dc)) if *dc != 0 => {
                held.push(format!("screen dc {}", dc));
            }
            (IconRequest::MemoryDc { .. }, IconReply::Handle(dc)) if *dc != 0 => {
                held.push(format!("memory dc {}", dc));
            }
            (IconRequest::Select { dc, .. }, IconReply::Handle(previous)) if *previous != 0 => {
                held.push(format!("selection {} {}", dc, previous));
            }
            (IconRequest::Restore { dc, previous }, _) => {
                let name = format!("selection {} {}", dc, previous);
                assert!(held.contains(&name), "gave back {} twice", name);
                held.retain(|other| *other != name);
            }
            (IconRequest::DeleteDc { dc }, _) => {
                let name = format!("memory dc {}", dc);
                assert!(held.contains(&name), "gave back {} twice", name);
                held.retain(|other| *other != name);
            }
            (IconRequest::DeleteBitmap { bitmap }, _) => {
                let name = format!("bitmap {}", bitmap);
                assert!(held.contains(&name), "gave back {} twice", name);
                held.retain(|other| *other != name);
            }
            (IconRequest::ReleaseDc { dc }, _) => {
                let name = format!("screen dc {}", dc);
                assert!(held.contains(&name), "gave back {} twice", name);
                held.retain(|other| *other != name);
            }
            _ => {}
        }
    }
    held
}

fn finish(verdict: Result<(), IconError>) -> IconRequest {
    IconRequest::Finish { verdict }
}

const HAPPY: [IconReply; 11] = [
    IconReply::Handle(500),
    IconReply::Bitmaps { color: 61, mask: 62 },
    IconReply::Handle(71),
    IconReply::Handle(72),
    IconReply::Handle(73),
    IconReply::Done,
    IconReply::Done,
    IconReply::Done,
    IconReply::Done,
    IconReply::Done,
    IconReply::Done,
];

#[test]
fn extraction_acquires_reads_and_gives_back_in_reverse() {
    let made = drive(get_prev_window_icon_png(Platform::Windows, &notepad()), &HAPPY);
    assert_eq!(
        made,
        vec![
            IconRequest::AskIcon { window: 77, size: IconSize::Small },
            IconRequest::IconInfo { icon: 500 },
            IconRequest::ScreenDc,
            IconRequest::MemoryDc { like: 71 },
            IconRequest::Select { dc: 72, bitmap: 61 },
            IconRequest::ReadBits { dc: 72, bitmap: 61 },
            IconRequest::Restore { dc: 72, previous: 73 },
            IconRequest::DeleteDc { dc: 72 },
            IconRequest::ReleaseDc { dc: 71 },
            IconRequest::DeleteBitmap { bitmap: 61 },
            IconRequest::DeleteBitmap { bitmap: 62 },
            finish(Ok(())),
        ]
    );
    assert!(leaked(&made, &HAPPY).is_empty());
}

#[test]
fn failed_read_gives_every_handle_back() {
    let mut replies = HAPPY;
    replies[5] = IconReply::Failed;
    let made = drive(get_prev_window_icon_png(Platform::Windows, &notepad()), &replies);
    assert_eq!(made[6], IconRequest::Restore { dc: 72, previous: 73 });
    assert_eq!(made[11], finish(Err(IconError::Bits)));
    assert!(leaked(&made, &replies).is_empty());
}

#[test]
fn every_failure_point_gives_every_handle_back() {
    let failures = [
        (1, IconReply::Failed, IconError::IconInfo),
        (1, IconReply::Bitmaps { color: 0, mask: 62 }, IconError::InvalidBitmap),
        (2, IconReply::Handle(0), IconError::DeviceContext),
        (3, IconReply::Handle(0), IconError::DeviceContext),
        (4, IconReply::Handle(0), IconError::Selection),
        (5, IconReply::Failed, IconError::Bits),
    ];
    for (at, reply, error) in failures {
        let mut replies = HAPPY.to_vec();
        replies[at] = reply;
        replies.push(IconReply::Done);
        let made = drive(get_prev_window_icon_png(Platform::Windows, &notepad()), &replies);
        assert_eq!(*made.last().unwrap(), finish(Err(error)), "failure at {}", at);
        assert!(leaked(&made, &replies).is_empty(), "failure at {}", at);
    }
}

#[test]
fn no_script_of_replies_leaks_a_handle() {
    let all = [
        IconReply::Handle(0),
        IconReply::Handle(9),
        IconReply::Bitmaps { color: 9, mask: 9 },
        IconReply::Bitmaps { color: 3, mask: 0 },
        IconReply::Bitmaps { color: 0, mask: 4 },
        IconReply::Bitmaps { color: 5, mask: 6 },
        IconReply::Done,
        IconReply::Failed,
    ];
    let mut state: u64 = 0x9E37_79B9_7F4A_7C15;
    for _ in 0..20_000 {
        let mut replies = Vec::new();
        for _ in 0..12 {
            state = state.wrapping_mul(6364136223846793005).wrapping_add(1442695040888963407);
            replies.push(all[(state >> 33) as usize % all.len()]);
        }
        let made = drive(get_prev_window_icon_png(Platform::Windows, &notepad()), &replies);
        assert!(matches!(made[12], IconRequest::Finish { .. }), "{:?}", replies);
        assert!(leaked(&made, &replies).is_empty(), "{:?}", replies);
    }
}

#[test]
fn small_icon_is_asked_for_first_and_big_icon_second() {
    let start = get_prev_window_icon_png(Platform::Windows, &notepad());
    assert_eq!(start.pending, IconRequest::AskIcon { window: 77, size: IconSize::Small });
    let second = get_window_icon(start, IconReply::Handle(0));
    assert_eq!(second.pending, IconRequest::AskIcon { window: 77, size: IconSize::Big });
    let found = get_window_icon(second, IconReply::Handle(8));
    assert_eq!(found.pending, IconRequest::IconInfo { icon: 8 });
    assert_eq!(found.icon, 8);
    let missing = get_window_icon(second, IconReply::Handle(0));
    assert_eq!(missing.pending, finish(Err(IconError::NoIcon)));
}

#[test]
fn small_icon_is_taken_where_there_is_one() {
    let start = get_prev_window_icon_png(Platform::Windows, &notepad());
    assert_eq!(
        get_window_icon(start, IconReply::Handle(5)).pending,
        IconRequest::IconInfo { icon: 5 }
    );
}

#[test]
fn get_window_icon_leaves_other_stages_alone() {
    let session = drive_to_info();
    assert_eq!(get_window_icon(session, IconReply::Handle(1)), session);
}

fn drive_to_info() -> IconSession {
    get_prev_window_icon_png(Platform::Windows, &notepad()).step(IconReply::Handle(5))
}

#[test]
fn no_window_means_no_icon() {
    let session = get_prev_window_icon_png(Platform::Windows, &None);
    assert_eq!(session.pending, finish(Err(IconError::NoIcon)));
}

#[test]
fn window_without_handle_means_no_icon() {
    let mut window = notepad();
    window.as_mut().unwrap().id = 0;
    let session = get_prev_window_icon_png(Platform::Windows, &window);
    assert_eq!(session.pending, finish(Err(IconError::NoIcon)));
}

#[test]
fn other_platforms_find_no_icon() {
    for platform in [Platform::MacOs, Platform::X11] {
        let session = get_prev_window_icon_png(platform, &notepad());
        assert_eq!(session.pending, finish(Err(IconError::NoIcon)));
    }
}

#[test]
fn one_bitmap_under_two_names_is_deleted_once() {
    let mut replies = HAPPY.to_vec();
    replies[1] = IconReply::Bitmaps { color: 61, mask: 61 };
    let made = drive(get_prev_window_icon_png(Platform::Windows, &notepad()), &replies);
    assert_eq!(made[9], IconRequest::DeleteBitmap { bitmap: 61 });
    assert_eq!(made[10], finish(Ok(())));
    assert!(leaked(&made, &replies).is_empty());
}

fn sample_bits() -> Vec<u8> {
    let mut bits = Vec::with_capacity(ICON_BYTES);
    for pixel in 0..(ICON_WIDTH * ICON_HEIGHT) {
        let x = (pixel % ICON_WIDTH) as u8;
        let y = (pixel / ICON_WIDTH) as u8;
        bits.push(x.wrapping_mul(7).wrapping_add(1));
        bits.push(y.wrapping_mul(5).wrapping_add(2));
        bits.push(x.wrapping_add(y).wrapping_mul(3));
        bits.push(255 - x);
    }
    bits
}

#[test]
fn icon_sizes_fit_together() {
    assert_eq!(ICON_WIDTH, 32);
    assert_eq!(ICON_HEIGHT, 32);
    assert_eq!(ICON_BYTES, 32 * 32 * 4);
}

#[test]
fn png_holds_the_pixels_with_red_and_blue_exchanged() {
    let bits = sample_bits();
    let png = hicon_to_png(Platform::Windows, &bits).unwrap();
    assert_eq!(&png[..8], &[0x89, b'P', b'N', b'G', 0x0D, 0x0A, 0x1A, 0x0A]);
    let decoded = image::load_from_memory(&png).unwrap().to_rgba8();
    assert_eq!(decoded.dimensions(), (32, 32));
    for y in 0..32u32 {
        for x in 0..32u32 {
            let at = ((y * 32 + x) * 4) as usize;
            let pixel = decoded.get_pixel(x, y).0;
            assert_eq!(pixel, [bits[at + 2], bits[at + 1], bits[at], bits[at + 3]]);
        }
    }
}

#[test]
fn png_is_not_the_buffer_handed_in() {
    let bits = sample_bits();
    let png = hicon_to_png(Platform::Windows, &bits).unwrap();
    assert_ne!(png, bits);
}

#[test]
fn same_bits_give_the_same_png() {
    let bits = sample_bits();
    assert_eq!(hicon_to_png(Platform::Windows, &bits), hicon_to_png(Platform::Windows, &bits));
}

#[test]
fn buffer_of_the_wrong_size_is_refused() {
    assert_eq!(hicon_to_png(Platform::Windows, &vec![0u8; 4095]), Err(IconError::Bits));
    assert_eq!(hicon_to_png(Platform::Windows, &vec![0u8; 4097]), Err(IconError::Bits));
    assert_eq!(hicon_to_png(Platform::Windows, &Vec::new()), Err(IconError::Bits));
}

#[test]
fn conversion_is_unsupported_off_windows() {
    assert_eq!(hicon_to_png(Platform::MacOs, &sample_bits()), Err(IconError::Unsupported));
    assert_eq!(hicon_to_png(Platform::X11, &sample_bits()), Err(IconError::Unsupported));
}

#[test]
fn raster_of_other_sizes_can_be_built() {
    let bits = vec![1u8, 2, 3, 4, 5, 6, 7, 8, 9, 10, 11, 12, 13, 14, 15, 16, 17, 18, 19, 20, 21, 22, 23, 24];
    let _raster: Raster = Raster::from_bgra(3, 2, &bits);
    let _empty: Raster = Raster::from_bgra(0, 0, &Vec::new());
}

#[test]
fn icon_errors_have_messages() {
    assert_eq!(IconError::NoIcon.message(), "No icon found for window");
    assert_eq!(IconError::IconInfo.message(), "Failed to get icon info");
    assert_eq!(IconError::InvalidBitmap.message(), "Invalid bitmap handle");
    assert_eq!(IconError::DeviceContext.message(), "Failed to get device context");
    assert_eq!(IconError::Selection.message(), "Failed to select bitmap");
    assert_eq!(IconError::Bits.message(), "Failed to get bitmap bits");
    assert_eq!(IconError::Encode.message(), "Failed to encode icon");
    assert_eq!(
        IconError::Unsupported.message(),
        "Icon conversion not supported on this platform"
    );
}
