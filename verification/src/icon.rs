//! Window icons: finding a window's icon, reading its pixels through scoped
//! operating-system handles, and turning the pixels into a PNG file.
//!
//! The operating-system calls themselves are made by the caller. Each call is
//! an [`IconRequest`], and what came back is an [`IconReply`]; the functions
//! here decide the next request from the reply to the previous one.

use crate::platform::Platform;
use crate::raster::{png_encoding, red_blue_swapped, Raster};
use crate::snapshot::WindowSnapshot;
use vstd::prelude::*;

verus! {

/// Width in pixels at which an icon is read.
pub const ICON_WIDTH: u32 = 32;

/// Height in pixels at which an icon is read.
pub const ICON_HEIGHT: u32 = 32;

/// Size in bytes of the device bits of an icon: four bytes per pixel.
pub const ICON_BYTES: usize = 4096;

/// Why no PNG file could be made of a window's icon.
#[derive(Clone, Copy, Debug, PartialEq, Eq)]
pub enum IconError {
    /// There is no previous window, or it offers no icon.
    NoIcon,
    /// The icon's bitmaps could not be queried.
    IconInfo,
    /// The icon has no colour bitmap.
    InvalidBitmap,
    /// A device context could not be obtained.
    DeviceContext,
    /// The bitmap could not be selected into the device context.
    Selection,
    /// The pixels could not be read.
    Bits,
    /// The pixels could not be encoded.
    Encode,
    /// Icons are not read on this platform.
    Unsupported,
}

impl IconError {
    /// The message shown to the user.
    pub open spec fn text(self) -> Seq<char> {
        match self {
            IconError::NoIcon => "No icon found for window"@,
            IconError::IconInfo => "Failed to get icon info"@,
            IconError::InvalidBitmap => "Invalid bitmap handle"@,
            IconError::DeviceContext => "Failed to get device context"@,
            IconError::Selection => "Failed to select bitmap"@,
            IconError::Bits => "Failed to get bitmap bits"@,
            IconError::Encode => "Failed to encode icon"@,
            IconError::Unsupported => "Icon conversion not supported on this platform"@,
        }
    }

    /// The message shown to the user.
    pub fn message(&self) -> (text: String)
        ensures
            text@ == self.text(),
    {
        match self {
            IconError::NoIcon => "No icon found for window".to_owned(),
            IconError::IconInfo => "Failed to get icon info".to_owned(),
            IconError::InvalidBitmap => "Invalid bitmap handle".to_owned(),
            IconError::DeviceContext => "Failed to get device context".to_owned(),
            IconError::Selection => "Failed to select bitmap".to_owned(),
            IconError::Bits => "Failed to get bitmap bits".to_owned(),
            IconError::Encode => "Failed to encode icon".to_owned(),
            IconError::Unsupported => "Icon conversion not supported on this platform".to_owned(),
        }
    }
}

/// The PNG file of an icon whose device bits are `bits`: rows from the top,
/// each pixel stored as blue, green, red, alpha.
pub open spec fn icon_png(platform: Platform, bits: Seq<u8>) -> Result<Seq<u8>, IconError> {
    if platform != Platform::Windows {
        Err(IconError::Unsupported)
    } else if bits.len() != ICON_BYTES {
        Err(IconError::Bits)
    } else {
        match png_encoding(ICON_WIDTH, ICON_HEIGHT, red_blue_swapped(bits)) {
            Some(png) => Ok(png),
            None => Err(IconError::Encode),
        }
    }
}

/// Turns the device bits of an icon into a PNG file: exchanges red and blue in
/// every pixel and encodes the result.
pub fn hicon_to_png(platform: Platform, bits: &Vec<u8>) -> (png: Result<Vec<u8>, IconError>)
    ensures
        match png {
            Ok(bytes) => icon_png(platform, bits@) == Ok::<Seq<u8>, IconError>(bytes@),
            Err(error) => icon_png(platform, bits@) == Err::<Seq<u8>, IconError>(error),
        },
{
    match platform {
        Platform::Windows => {},
        _ => {
            return Err(IconError::Unsupported);
        },
    }
    if bits.len() != ICON_BYTES {
        return Err(IconError::Bits);
    }
    let raster = Raster::from_bgra(ICON_WIDTH, ICON_HEIGHT, bits);
    match raster.write_png() {
        Ok(bytes) => Ok(bytes),
        Err(_) => Err(IconError::Encode),
    }
}

/// Which of a window's two icons is asked for.
#[derive(Clone, Copy, Debug, PartialEq, Eq)]
pub enum IconSize {
    Small,
    Big,
}

/// What the library asks the operating system to do next. Handles are
/// pointer-sized numbers, and zero is no handle.
#[derive(Clone, Copy, Debug, PartialEq, Eq)]
pub enum IconRequest {
    /// Ask the window for its icon of the given size.
    AskIcon { window: u32, size: IconSize },
    /// Query the colour and mask bitmaps of an icon. The system creates both
    /// for the caller, who has to delete them.
    IconInfo { icon: usize },
    /// Get the device context of the screen.
    ScreenDc,
    /// Create a memory device context compatible with `like`.
    MemoryDc { like: usize },
    /// Select `bitmap` into `dc`; the reply is the object selected before.
    Select { dc: usize, bitmap: usize },
    /// Read the pixels of `bitmap` through `dc`: `ICON_WIDTH` by `ICON_HEIGHT`,
    /// rows from the top, 32 bits per pixel, into a buffer of `ICON_BYTES`.
    ReadBits { dc: usize, bitmap: usize },
    /// Select `previous` back into `dc`.
    Restore { dc: usize, previous: usize },
    /// Delete the memory device context `dc`.
    DeleteDc { dc: usize },
    /// Delete the bitmap `bitmap`.
    DeleteBitmap { bitmap: usize },
    /// Give the screen's device context `dc` back.
    ReleaseDc { dc: usize },
    /// Nothing more to do. With `Ok`, the pixels are in the caller's buffer.
    Finish { verdict: Result<(), IconError> },
}

/// What the operating system answered to a request.
#[derive(Clone, Copy, Debug, PartialEq, Eq)]
pub enum IconReply {
    /// The handle that a call returned; zero where it failed.
    Handle(usize),
    /// The bitmaps of an icon; either may be zero.
    Bitmaps { color: usize, mask: usize },
    /// The call succeeded and returned nothing to keep.
    Done,
    /// The call failed.
    Failed,
}

/// Something that the operating system holds for the caller until the caller
/// gives it back.
pub enum IconHandle {
    Bitmap(usize),
    ScreenDc(usize),
    MemoryDc(usize),
    Selection { dc: usize, previous: usize },
}

/// What the operating system holds for the caller once it has answered
/// `reply` to `request`, if it held `held` before.
pub open spec fn held_after(held: Set<IconHandle>, request: IconRequest, reply: IconReply) -> Set<
    IconHandle,
> {
    match (request, reply) {
        (IconRequest::IconInfo { .. }, IconReply::Bitmaps { color, mask }) => {
            let with_color = if color != 0 {
                held.insert(IconHandle::Bitmap(color))
            } else {
                held
            };
            if mask != 0 {
                with_color.insert(IconHandle::Bitmap(mask))
            } else {
                with_color
            }
        },
        (IconRequest::ScreenDc, IconReply::Handle(dc)) => if dc != 0 {
            held.insert(IconHandle::ScreenDc(dc))
        } else {
            held
        },
        (IconRequest::MemoryDc { .. }, IconReply::Handle(dc)) => if dc != 0 {
            held.insert(IconHandle::MemoryDc(dc))
        } else {
            held
        },
        (IconRequest::Select { dc, .. }, IconReply::Handle(previous)) => if previous != 0 {
            held.insert(IconHandle::Selection { dc, previous })
        } else {
            held
        },
        (IconRequest::Restore { dc, previous }, _) => held.remove(
            IconHandle::Selection { dc, previous },
        ),
        (IconRequest::DeleteDc { dc }, _) => held.remove(IconHandle::MemoryDc(dc)),
        (IconRequest::DeleteBitmap { bitmap }, _) => held.remove(IconHandle::Bitmap(bitmap)),
        (IconRequest::ReleaseDc { dc }, _) => held.remove(IconHandle::ScreenDc(dc)),
        _ => held,
    }
}

/// The state of one icon extraction: the request that awaits its reply, the
/// handles obtained so far (zero: none), and the verdict so far.
#[derive(Clone, Copy, Debug, PartialEq, Eq)]
pub struct IconSession {
    /// The request that the caller is to perform next.
    pub pending: IconRequest,
    /// The icon found for the window.
    pub icon: usize,
    /// The icon's colour bitmap, while it is to be deleted.
    pub color: usize,
    /// The icon's mask bitmap, while it is to be deleted.
    pub mask: usize,
    /// The screen's device context, while it is to be released.
    pub screen: usize,
    /// The memory device context, while it is to be deleted.
    pub memory: usize,
    /// The object to select back into the memory device context.
    pub previous: usize,
    /// `Ok` until a call fails; then the first failure.
    pub verdict: Result<(), IconError>,
}

impl IconSession {
    /// The handles that this session still has to give back.
    pub open spec fn handles(self) -> Set<IconHandle> {
        let none = Set::<IconHandle>::empty();
        let a = if self.color != 0 {
            none.insert(IconHandle::Bitmap(self.color))
        } else {
            none
        };
        let b = if self.mask != 0 {
            a.insert(IconHandle::Bitmap(self.mask))
        } else {
            a
        };
        let c = if self.screen != 0 {
            b.insert(IconHandle::ScreenDc(self.screen))
        } else {
            b
        };
        let d = if self.memory != 0 {
            c.insert(IconHandle::MemoryDc(self.memory))
        } else {
            c
        };
        if self.previous != 0 {
            d.insert(IconHandle::Selection { dc: self.memory, previous: self.previous })
        } else {
            d
        }
    }

    /// What holds of every session that an extraction passes through: the
    /// handles are obtained in one order and given back in the reverse order,
    /// and the pending request fits the handles held.
    pub open spec fn well_formed(self) -> bool {
        &&& self.previous != 0 ==> self.memory != 0
        &&& self.memory != 0 ==> self.screen != 0
        &&& self.screen != 0 ==> self.color != 0
        &&& self.mask != 0 ==> self.mask != self.color
        &&& match self.pending {
            IconRequest::AskIcon { .. } | IconRequest::IconInfo { .. } => self.color == 0
                && self.mask == 0,
            IconRequest::ScreenDc => self.color != 0 && self.screen == 0,
            IconRequest::MemoryDc { like } => like == self.screen && self.screen != 0
                && self.memory == 0,
            IconRequest::Select { dc, bitmap } => dc == self.memory && self.memory != 0
                && bitmap == self.color && self.previous == 0,
            IconRequest::ReadBits { dc, bitmap } => dc == self.memory && bitmap == self.color
                && self.previous != 0,
            IconRequest::Restore { dc, previous } => dc == self.memory && previous
                == self.previous && self.previous != 0,
            IconRequest::DeleteDc { dc } => dc == self.memory && self.memory != 0
                && self.previous == 0,
            IconRequest::ReleaseDc { dc } => dc == self.screen && self.screen != 0
                && self.memory == 0,
            IconRequest::DeleteBitmap { bitmap } => self.screen == 0 && bitmap != 0 && (bitmap
                == self.color || (self.color == 0 && bitmap == self.mask)),
            IconRequest::Finish { .. } => self.color == 0 && self.mask == 0,
        }
    }

    /// Whether the session has ended.
    pub open spec fn finished(self) -> bool {
        self.pending is Finish
    }

    /// The session with which the extraction for `last_window` starts. Only
    /// on Windows, and only of a window with a handle, is an icon asked for.
    pub open spec fn start_spec(platform: Platform, last_window: Option<WindowSnapshot>) -> IconSession {
        let pending = match last_window {
            Some(window) => if platform == Platform::Windows && window.id != 0 {
                IconRequest::AskIcon { window: window.id, size: IconSize::Small }
            } else {
                IconRequest::Finish { verdict: Err(IconError::NoIcon) }
            },
            None => IconRequest::Finish { verdict: Err(IconError::NoIcon) },
        };
        IconSession {
            pending,
            icon: 0,
            color: 0,
            mask: 0,
            screen: 0,
            memory: 0,
            previous: 0,
            verdict: match pending {
                IconRequest::Finish { verdict } => verdict,
                _ => Ok(()),
            },
        }
    }

    /// The next thing to give back, or the end of the session when nothing is
    /// held: the selection first, then the memory device context, the screen's
    /// device context, the colour bitmap and the mask bitmap.
    pub open spec fn unwind_spec(self) -> IconSession {
        let pending = if self.previous != 0 {
            IconRequest::Restore { dc: self.memory, previous: self.previous }
        } else if self.memory != 0 {
            IconRequest::DeleteDc { dc: self.memory }
        } else if self.screen != 0 {
            IconRequest::ReleaseDc { dc: self.screen }
        } else if self.color != 0 {
            IconRequest::DeleteBitmap { bitmap: self.color }
        } else if self.mask != 0 {
            IconRequest::DeleteBitmap { bitmap: self.mask }
        } else {
            IconRequest::Finish { verdict: self.verdict }
        };
        IconSession { pending, ..self }
    }

    /// The session that gives up with `error` and starts giving back.
    pub open spec fn fail_spec(self, error: IconError) -> IconSession {
        (IconSession { verdict: Err(error), ..self }).unwind_spec()
    }

    /// The session after `reply` has come back for a pending `AskIcon`: a
    /// handle is taken; without one the big icon is asked for after the small
    /// one, and after the big one the session ends without an icon.
    pub open spec fn lookup_spec(self, reply: IconReply) -> IconSession {
        match self.pending {
            IconRequest::AskIcon { window, size } => match reply {
                IconReply::Handle(icon) if icon != 0 => IconSession {
                    pending: IconRequest::IconInfo { icon },
                    icon,
                    ..self
                },
                _ => match size {
                    IconSize::Small => IconSession {
                        pending: IconRequest::AskIcon { window, size: IconSize::Big },
                        ..self
                    },
                    IconSize::Big => self.fail_spec(IconError::NoIcon),
                },
            },
            _ => self,
        }
    }

    /// The session after `reply` has come back for the pending request.
    pub open spec fn step_spec(self, reply: IconReply) -> IconSession {
        match self.pending {
            IconRequest::AskIcon { .. } => self.lookup_spec(reply),
            IconRequest::IconInfo { .. } => match reply {
                IconReply::Bitmaps { color, mask } => {
                    let kept = IconSession {
                        color,
                        mask: if mask == color {
                            0
                        } else {
                            mask
                        },
                        ..self
                    };
                    if color != 0 {
                        IconSession { pending: IconRequest::ScreenDc, ..kept }
                    } else {
                        kept.fail_spec(IconError::InvalidBitmap)
                    }
                },
                _ => self.fail_spec(IconError::IconInfo),
            },
            IconRequest::ScreenDc => match reply {
                IconReply::Handle(dc) if dc != 0 => IconSession {
                    pending: IconRequest::MemoryDc { like: dc },
                    screen: dc,
                    ..self
                },
                _ => self.fail_spec(IconError::DeviceContext),
            },
            IconRequest::MemoryDc { .. } => match reply {
                IconReply::Handle(dc) if dc != 0 => IconSession {
                    pending: IconRequest::Select { dc, bitmap: self.color },
                    memory: dc,
                    ..self
                },
                _ => self.fail_spec(IconError::DeviceContext),
            },
            IconRequest::Select { dc, bitmap } => match reply {
                IconReply::Handle(previous) if previous != 0 => IconSession {
                    pending: IconRequest::ReadBits { dc, bitmap },
                    previous,
                    ..self
                },
                _ => self.fail_spec(IconError::Selection),
            },
            IconRequest::ReadBits { .. } => match reply {
                IconReply::Done => self.unwind_spec(),
                _ => self.fail_spec(IconError::Bits),
            },
            IconRequest::Restore { .. } => (IconSession { previous: 0, ..self }).unwind_spec(),
            IconRequest::DeleteDc { .. } => (IconSession { memory: 0, ..self }).unwind_spec(),
            IconRequest::ReleaseDc { .. } => (IconSession { screen: 0, ..self }).unwind_spec(),
            IconRequest::DeleteBitmap { bitmap } => if bitmap == self.color {
                (IconSession { color: 0, ..self }).unwind_spec()
            } else {
                (IconSession { mask: 0, ..self }).unwind_spec()
            },
            IconRequest::Finish { .. } => self,
        }
    }

    /// An upper bound on the number of replies after which the session ends.
    pub open spec fn budget(self) -> nat {
        match self.pending {
            IconRequest::AskIcon { size: IconSize::Small, .. } => 12,
            IconRequest::AskIcon { size: IconSize::Big, .. } => 11,
            IconRequest::IconInfo { .. } => 10,
            IconRequest::ScreenDc => 9,
            IconRequest::MemoryDc { .. } => 8,
            IconRequest::Select { .. } => 7,
            IconRequest::ReadBits { .. } => 6,
            IconRequest::Restore { .. } => 5,
            IconRequest::DeleteDc { .. } => 4,
            IconRequest::ReleaseDc { .. } => 3,
            IconRequest::DeleteBitmap { bitmap } => if bitmap == self.color {
                2
            } else {
                1
            },
            IconRequest::Finish { .. } => 0,
        }
    }

    fn unwind(self) -> (next: IconSession)
        ensures
            next == self.unwind_spec(),
    {
        let pending = if self.previous != 0 {
            IconRequest::Restore { dc: self.memory, previous: self.previous }
        } else if self.memory != 0 {
            IconRequest::DeleteDc { dc: self.memory }
        } else if self.screen != 0 {
            IconRequest::ReleaseDc { dc: self.screen }
        } else if self.color != 0 {
            IconRequest::DeleteBitmap { bitmap: self.color }
        } else if self.mask != 0 {
            IconRequest::DeleteBitmap { bitmap: self.mask }
        } else {
            IconRequest::Finish { verdict: self.verdict }
        };
        IconSession { pending, ..self }
    }

    fn fail(self, error: IconError) -> (next: IconSession)
        ensures
            next == self.fail_spec(error),
    {
        (IconSession { verdict: Err(error), ..self }).unwind()
    }

    /// Takes the reply to the pending request and decides the next one. Every
    /// handle that a reply brings is kept until it has been given back, and a
    /// failed call starts the giving back at once.
    pub fn step(self, reply: IconReply) -> (next: IconSession)
        ensures
            next == self.step_spec(reply),
            self.well_formed() ==> next.well_formed(),
    {
        proof {
            lemma_step_keeps_track(self, Set::empty(), reply);
        }
        match self.pending {
            IconRequest::AskIcon { .. } => get_window_icon(self, reply),
            IconRequest::IconInfo { .. } => match reply {
                IconReply::Bitmaps { color, mask } => {
                    let kept = IconSession {
                        color,
                        mask: if mask == color {
                            0
                        } else {
                            mask
                        },
                        ..self
                    };
                    if color != 0 {
                        IconSession { pending: IconRequest::ScreenDc, ..kept }
                    } else {
                        kept.fail(IconError::InvalidBitmap)
                    }
                },
                _ => self.fail(IconError::IconInfo),
            },
            IconRequest::ScreenDc => match reply {
                IconReply::Handle(dc) if dc != 0 => IconSession {
                    pending: IconRequest::MemoryDc { like: dc },
                    screen: dc,
                    ..self
                },
                _ => self.fail(IconError::DeviceContext),
            },
            IconRequest::MemoryDc { .. } => match reply {
                IconReply::Handle(dc) if dc != 0 => IconSession {
                    pending: IconRequest::Select { dc, bitmap: self.color },
                    memory: dc,
                    ..self
                },
                _ => self.fail(IconError::DeviceContext),
            },
            IconRequest::Select { dc, bitmap } => match reply {
                IconReply::Handle(previous) if previous != 0 => IconSession {
                    pending: IconRequest::ReadBits { dc, bitmap },
                    previous,
                    ..self
                },
                _ => self.fail(IconError::Selection),
            },
            IconRequest::ReadBits { .. } => match reply {
                IconReply::Done => self.unwind(),
                _ => self.fail(IconError::Bits),
            },
            IconRequest::Restore { .. } => (IconSession { previous: 0, ..self }).unwind(),
            IconRequest::DeleteDc { .. } => (IconSession { memory: 0, ..self }).unwind(),
            IconRequest::ReleaseDc { .. } => (IconSession { screen: 0, ..self }).unwind(),
            IconRequest::DeleteBitmap { bitmap } => if bitmap == self.color {
                (IconSession { color: 0, ..self }).unwind()
            } else {
                (IconSession { mask: 0, ..self }).unwind()
            },
            IconRequest::Finish { .. } => self,
        }
    }
}

/// Starts the extraction of the icon of the window that had the focus last.
/// Without such a window, with a window that has no handle, or on a platform
/// other than Windows, the session ends at once with `IconError::NoIcon`.
pub fn get_prev_window_icon_png(platform: Platform, last_window: &Option<WindowSnapshot>) -> (session:
    IconSession)
    ensures
        session == IconSession::start_spec(platform, *last_window),
        session.well_formed(),
        session.handles() == Set::<IconHandle>::empty(),
{
    let ended = IconRequest::Finish { verdict: Err(IconError::NoIcon) };
    let pending = match last_window {
        Some(window) => match platform {
            Platform::Windows => if window.id != 0 {
                IconRequest::AskIcon { window: window.id, size: IconSize::Small }
            } else {
                ended
            },
            _ => ended,
        },
        None => ended,
    };
    let verdict = match pending {
        IconRequest::Finish { verdict } => verdict,
        _ => Ok(()),
    };
    let session = IconSession {
        pending,
        icon: 0,
        color: 0,
        mask: 0,
        screen: 0,
        memory: 0,
        previous: 0,
        verdict,
    };
    assert(session.handles() =~= Set::<IconHandle>::empty());
    session
}

/// Takes the reply to a request for a window's icon: the small icon is asked
/// for first and the big one only where there is no small one. A session
/// that awaits something else is returned as it is.
pub fn get_window_icon(session: IconSession, reply: IconReply) -> (next: IconSession)
    ensures
        next == session.lookup_spec(reply),
{
    match session.pending {
        IconRequest::AskIcon { window, size } => match reply {
            IconReply::Handle(icon) if icon != 0 => IconSession {
                pending: IconRequest::IconInfo { icon },
                icon,
                ..session
            },
            _ => match size {
                IconSize::Small => IconSession {
                    pending: IconRequest::AskIcon { window, size: IconSize::Big },
                    ..session
                },
                IconSize::Big => session.fail(IconError::NoIcon),
            },
        },
        _ => session,
    }
}

/// The session after the replies `replies`, each given to the request that
/// was pending when it came.
pub open spec fn icon_run(start: IconSession, replies: Seq<IconReply>) -> IconSession
    decreases replies.len(),
{
    if replies.len() == 0 {
        start
    } else {
        icon_run(start, replies.drop_last()).step_spec(replies.last())
    }
}

/// What the operating system holds for the caller after the replies
/// `replies`, if it held nothing at the start.
pub open spec fn icon_held(start: IconSession, replies: Seq<IconReply>) -> Set<IconHandle>
    decreases replies.len(),
{
    if replies.len() == 0 {
        Set::empty()
    } else {
        held_after(
            icon_held(start, replies.drop_last()),
            icon_run(start, replies.drop_last()).pending,
            replies.last(),
        )
    }
}

/// One step keeps the session's books in line with the operating system: if
/// the session's handles are those that the system holds, this is so again
/// after the reply, and a step never takes the session further from its end.
pub proof fn lemma_step_keeps_track(session: IconSession, held: Set<IconHandle>, reply: IconReply)
    ensures
        session.well_formed() ==> session.step_spec(reply).well_formed(),
        session.well_formed() && held == session.handles() ==> held_after(
            held,
            session.pending,
            reply,
        ) == session.step_spec(reply).handles(),
        session.well_formed() && !session.finished() ==> session.step_spec(reply).budget()
            < session.budget(),
        session.finished() ==> session.step_spec(reply) == session,
{
    if session.well_formed() {
        let next = session.step_spec(reply);
        if held == session.handles() {
            assert(held_after(held, session.pending, reply) =~= next.handles());
        }
    }
}

/// Every handle is given back: whatever the operating system answers, once
/// the extraction has ended the system holds nothing that it handed out on
/// the way, also where a call failed halfway.
pub proof fn law_icon_handles_released(
    platform: Platform,
    last_window: Option<WindowSnapshot>,
    replies: Seq<IconReply>,
)
    ensures
        icon_run(IconSession::start_spec(platform, last_window), replies).well_formed(),
        icon_held(IconSession::start_spec(platform, last_window), replies) == icon_run(
            IconSession::start_spec(platform, last_window),
            replies,
        ).handles(),
        icon_run(IconSession::start_spec(platform, last_window), replies).finished() ==> icon_held(
            IconSession::start_spec(platform, last_window),
            replies,
        ) == Set::<IconHandle>::empty(),
    decreases replies.len(),
{
    let start = IconSession::start_spec(platform, last_window);
    if replies.len() == 0 {
        assert(start.handles() =~= Set::<IconHandle>::empty());
    } else {
        law_icon_handles_released(platform, last_window, replies.drop_last());
        lemma_step_keeps_track(
            icon_run(start, replies.drop_last()),
            icon_held(start, replies.drop_last()),
            replies.last(),
        );
    }
    let end = icon_run(start, replies);
    if end.finished() {
        assert(end.handles() =~= Set::<IconHandle>::empty());
    }
}

/// Whether the pixels were read at some point of the replies `replies`: a
/// request to read them was pending and was answered with `Done`.
pub open spec fn icon_bits_read(start: IconSession, replies: Seq<IconReply>) -> bool
    decreases replies.len(),
{
    replies.len() > 0 && (icon_bits_read(start, replies.drop_last()) || (icon_run(
        start,
        replies.drop_last(),
    ).pending is ReadBits && replies.last() is Done))
}

/// Whether a session that has read no pixels can only end in an error:
/// while it gives handles back its verdict is an error, and so is the
/// verdict with which it ends.
pub open spec fn cannot_succeed(session: IconSession) -> bool {
    match session.pending {
        IconRequest::Finish { verdict } => verdict is Err,
        IconRequest::Restore { .. }
        | IconRequest::DeleteDc { .. }
        | IconRequest::ReleaseDc { .. }
        | IconRequest::DeleteBitmap { .. } => session.verdict is Err,
        _ => true,
    }
}

/// Success means that the pixels were read: an extraction ends with `Ok`
/// only where a request to read the pixels was answered with `Done`.
pub proof fn law_icon_success_means_bits_read(
    platform: Platform,
    last_window: Option<WindowSnapshot>,
    replies: Seq<IconReply>,
)
    ensures
        icon_bits_read(IconSession::start_spec(platform, last_window), replies) || cannot_succeed(
            icon_run(IconSession::start_spec(platform, last_window), replies),
        ),
        icon_run(IconSession::start_spec(platform, last_window), replies).pending == (
        IconRequest::Finish { verdict: Ok(()) }) ==> icon_bits_read(
            IconSession::start_spec(platform, last_window),
            replies,
        ),
    decreases replies.len(),
{
    if replies.len() > 0 {
        law_icon_success_means_bits_read(platform, last_window, replies.drop_last());
    }
}

/// Every extraction ends: after twelve replies at the latest, whatever they
/// are, the session has ended.
pub proof fn law_icon_session_ends(
    platform: Platform,
    last_window: Option<WindowSnapshot>,
    replies: Seq<IconReply>,
)
    ensures
        icon_run(IconSession::start_spec(platform, last_window), replies).budget() + replies.len()
            <= 12 || icon_run(IconSession::start_spec(platform, last_window), replies).finished(),
        replies.len() >= 12 ==> icon_run(
            IconSession::start_spec(platform, last_window),
            replies,
        ).finished(),
    decreases replies.len(),
{
    let start = IconSession::start_spec(platform, last_window);
    if replies.len() > 0 {
        law_icon_session_ends(platform, last_window, replies.drop_last());
        law_icon_handles_released(platform, last_window, replies.drop_last());
        lemma_step_keeps_track(
            icon_run(start, replies.drop_last()),
            icon_held(start, replies.drop_last()),
            replies.last(),
        );
    }
}

} // verus!
