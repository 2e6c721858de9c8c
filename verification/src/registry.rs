//! The message type registry: the closed set of numeric message ids and the
//! payload size each type expects.
//!
//! The numeric ids are the protocol contract and are never reassigned; two of
//! them (58 and 59) sit out of numeric sequence between ranges allocated
//! earlier, which is protocol history to be preserved, not an error.

use crate::error::IpcError;
use crate::header::IcmIpcHeader;
use vstd::prelude::*;

verus! {

/// Every message kind of the protocol, one per registered numeric id.
#[derive(Debug, Clone, Copy, PartialEq, Eq, Structural)]
pub enum IcmIpcMsgType {
    CreateWindow,
    DestroyWindow,
    SetWindow,
    SetLayer,
    SetAttachments,
    DrawRect,
    ClearRects,
    ImportDmabuf,
    ExportDmabuf,
    DrawLine,
    DrawCircle,
    DrawPolygon,
    DrawImage,
    BlitBuffer,
    BatchBegin,
    BatchEnd,
    ExportSurface,
    ImportSurface,
    CreateBuffer,
    DestroyBuffer,
    QueryBufferInfo,
    RegisterPointerEvent,
    RegisterKeyboardEvent,
    QueryCaptureMouse,
    QueryCaptureKeyboard,
    PointerEvent,
    KeyboardEvent,
    UploadImage,
    DestroyImage,
    DrawUploadedImage,
    DrawText,
    SetWindowVisible,
    RegisterKeybind,
    UnregisterKeybind,
    KeybindEvent,
    WindowCreated,
    WindowDestroyed,
    RegisterClickRegion,
    UnregisterClickRegion,
    ClickRegionEvent,
    RequestScreenCopy,
    ScreenCopyData,
    RegisterGlobalPointerEvent,
    RegisterGlobalKeyboardEvent,
    RegisterGlobalCaptureMouse,
    RegisterGlobalCaptureKeyboard,
    UnregisterGlobalCaptureKeyboard,
    UnregisterGlobalCaptureMouse,
    SetWindowPosition,
    SetWindowSize,
    SetWindowOpacity,
    SetWindowTransform,
    SetWindowBlur,
    SetScreenEffect,
    SetWindowEffect,
    SetWindowLayer,
    RaiseWindow,
    LowerWindow,
    SetWindowParent,
    SetWindowTransform3d,
    SetWindowMatrix,
    SetWindowState,
    FocusWindow,
    BlurWindow,
    QueryWindowPosition,
    QueryWindowSize,
    QueryWindowAttributes,
    QueryWindowLayer,
    QueryWindowState,
    WindowPositionData,
    WindowSizeData,
    WindowAttributesData,
    WindowLayerData,
    WindowStateData,
    QueryScreenDimensions,
    ScreenDimensionsData,
    QueryMonitors,
    MonitorsData,
    CompositorShutdown,
    QueryWindowInfo,
    WindowInfoData,
    AnimateWindow,
    StopAnimation,
    SetWindowMeshTransform,
    ClearWindowMeshTransform,
    UpdateWindowMeshVertices,
    QueryToplevelWindows,
    ToplevelWindowsData,
    SubscribeWindowEvents,
    UnsubscribeWindowEvents,
    WindowTitleChanged,
    WindowStateChanged,
    LaunchApp,
}

/// What payload length a message type admits: a fixed size, a minimum size
/// for the variable-length patterns, or no payload rule in this protocol
/// version (the id is registered, its payload codec is not defined here).
#[derive(Debug, Clone, Copy, PartialEq, Eq, Structural)]
pub enum PayloadShape {
    Exact(u32),
    AtLeast(u32),
    Unspecified,
}

impl IcmIpcMsgType {
    /// The numeric wire id of this message type.
    pub open spec fn spec_id(self) -> u16 {
        match self {
            IcmIpcMsgType::CreateWindow => 1,
            IcmIpcMsgType::DestroyWindow => 2,
            IcmIpcMsgType::SetWindow => 3,
            IcmIpcMsgType::SetLayer => 4,
            IcmIpcMsgType::SetAttachments => 5,
            IcmIpcMsgType::DrawRect => 6,
            IcmIpcMsgType::ClearRects => 7,
            IcmIpcMsgType::ImportDmabuf => 8,
            IcmIpcMsgType::ExportDmabuf => 9,
            IcmIpcMsgType::DrawLine => 10,
            IcmIpcMsgType::DrawCircle => 11,
            IcmIpcMsgType::DrawPolygon => 12,
            IcmIpcMsgType::DrawImage => 13,
            IcmIpcMsgType::BlitBuffer => 14,
            IcmIpcMsgType::BatchBegin => 15,
            IcmIpcMsgType::BatchEnd => 16,
            IcmIpcMsgType::ExportSurface => 17,
            IcmIpcMsgType::ImportSurface => 18,
            IcmIpcMsgType::CreateBuffer => 19,
            IcmIpcMsgType::DestroyBuffer => 20,
            IcmIpcMsgType::QueryBufferInfo => 21,
            IcmIpcMsgType::RegisterPointerEvent => 22,
            IcmIpcMsgType::RegisterKeyboardEvent => 23,
            IcmIpcMsgType::QueryCaptureMouse => 24,
            IcmIpcMsgType::QueryCaptureKeyboard => 25,
            IcmIpcMsgType::PointerEvent => 26,
            IcmIpcMsgType::KeyboardEvent => 27,
            IcmIpcMsgType::UploadImage => 28,
            IcmIpcMsgType::DestroyImage => 29,
            IcmIpcMsgType::DrawUploadedImage => 30,
            IcmIpcMsgType::DrawText => 31,
            IcmIpcMsgType::SetWindowVisible => 32,
            IcmIpcMsgType::RegisterKeybind => 33,
            IcmIpcMsgType::UnregisterKeybind => 34,
            IcmIpcMsgType::KeybindEvent => 35,
            IcmIpcMsgType::WindowCreated => 36,
            IcmIpcMsgType::WindowDestroyed => 37,
            IcmIpcMsgType::RegisterClickRegion => 38,
            IcmIpcMsgType::UnregisterClickRegion => 39,
            IcmIpcMsgType::ClickRegionEvent => 40,
            IcmIpcMsgType::RequestScreenCopy => 41,
            IcmIpcMsgType::ScreenCopyData => 42,
            IcmIpcMsgType::RegisterGlobalPointerEvent => 43,
            IcmIpcMsgType::RegisterGlobalKeyboardEvent => 44,
            IcmIpcMsgType::RegisterGlobalCaptureMouse => 45,
            IcmIpcMsgType::RegisterGlobalCaptureKeyboard => 46,
            IcmIpcMsgType::UnregisterGlobalCaptureKeyboard => 58,
            IcmIpcMsgType::UnregisterGlobalCaptureMouse => 59,
            IcmIpcMsgType::SetWindowPosition => 47,
            IcmIpcMsgType::SetWindowSize => 48,
            IcmIpcMsgType::SetWindowOpacity => 49,
            IcmIpcMsgType::SetWindowTransform => 50,
            IcmIpcMsgType::SetWindowBlur => 78,
            IcmIpcMsgType::SetScreenEffect => 79,
            IcmIpcMsgType::SetWindowEffect => 80,
            IcmIpcMsgType::SetWindowLayer => 60,
            IcmIpcMsgType::RaiseWindow => 61,
            IcmIpcMsgType::LowerWindow => 62,
            IcmIpcMsgType::SetWindowParent => 63,
            IcmIpcMsgType::SetWindowTransform3d => 64,
            IcmIpcMsgType::SetWindowMatrix => 65,
            IcmIpcMsgType::SetWindowState => 66,
            IcmIpcMsgType::FocusWindow => 67,
            IcmIpcMsgType::BlurWindow => 83,
            IcmIpcMsgType::QueryWindowPosition => 52,
            IcmIpcMsgType::QueryWindowSize => 53,
            IcmIpcMsgType::QueryWindowAttributes => 54,
            IcmIpcMsgType::QueryWindowLayer => 68,
            IcmIpcMsgType::QueryWindowState => 69,
            IcmIpcMsgType::WindowPositionData => 55,
            IcmIpcMsgType::WindowSizeData => 56,
            IcmIpcMsgType::WindowAttributesData => 57,
            IcmIpcMsgType::WindowLayerData => 70,
            IcmIpcMsgType::WindowStateData => 71,
            IcmIpcMsgType::QueryScreenDimensions => 72,
            IcmIpcMsgType::ScreenDimensionsData => 73,
            IcmIpcMsgType::QueryMonitors => 74,
            IcmIpcMsgType::MonitorsData => 75,
            IcmIpcMsgType::CompositorShutdown => 51,
            IcmIpcMsgType::QueryWindowInfo => 76,
            IcmIpcMsgType::WindowInfoData => 77,
            IcmIpcMsgType::AnimateWindow => 81,
            IcmIpcMsgType::StopAnimation => 82,
            IcmIpcMsgType::SetWindowMeshTransform => 84,
            IcmIpcMsgType::ClearWindowMeshTransform => 85,
            IcmIpcMsgType::UpdateWindowMeshVertices => 86,
            IcmIpcMsgType::QueryToplevelWindows => 87,
            IcmIpcMsgType::ToplevelWindowsData => 88,
            IcmIpcMsgType::SubscribeWindowEvents => 89,
            IcmIpcMsgType::UnsubscribeWindowEvents => 90,
            IcmIpcMsgType::WindowTitleChanged => 91,
            IcmIpcMsgType::WindowStateChanged => 92,
            IcmIpcMsgType::LaunchApp => 93,
        }
    }

    /// The message type registered under numeric id `id`, if any.
    pub open spec fn spec_from_id(id: u16) -> Option<IcmIpcMsgType> {
        if id == 1 {
            Some(IcmIpcMsgType::CreateWindow)
        } else if id == 2 {
            Some(IcmIpcMsgType::DestroyWindow)
        } else if id == 3 {
            Some(IcmIpcMsgType::SetWindow)
        } else if id == 4 {
            Some(IcmIpcMsgType::SetLayer)
        } else if id == 5 {
            Some(IcmIpcMsgType::SetAttachments)
        } else if id == 6 {
            Some(IcmIpcMsgType::DrawRect)
        } else if id == 7 {
            Some(IcmIpcMsgType::ClearRects)
        } else if id == 8 {
            Some(IcmIpcMsgType::ImportDmabuf)
        } else if id == 9 {
            Some(IcmIpcMsgType::ExportDmabuf)
        } else if id == 10 {
            Some(IcmIpcMsgType::DrawLine)
        } else if id == 11 {
            Some(IcmIpcMsgType::DrawCircle)
        } else if id == 12 {
            Some(IcmIpcMsgType::DrawPolygon)
        } else if id == 13 {
            Some(IcmIpcMsgType::DrawImage)
        } else if id == 14 {
            Some(IcmIpcMsgType::BlitBuffer)
        } else if id == 15 {
            Some(IcmIpcMsgType::BatchBegin)
        } else if id == 16 {
            Some(IcmIpcMsgType::BatchEnd)
        } else if id == 17 {
            Some(IcmIpcMsgType::ExportSurface)
        } else if id == 18 {
            Some(IcmIpcMsgType::ImportSurface)
        } else if id == 19 {
            Some(IcmIpcMsgType::CreateBuffer)
        } else if id == 20 {
            Some(IcmIpcMsgType::DestroyBuffer)
        } else if id == 21 {
            Some(IcmIpcMsgType::QueryBufferInfo)
        } else if id == 22 {
            Some(IcmIpcMsgType::RegisterPointerEvent)
        } else if id == 23 {
            Some(IcmIpcMsgType::RegisterKeyboardEvent)
        } else if id == 24 {
            Some(IcmIpcMsgType::QueryCaptureMouse)
        } else if id == 25 {
            Some(IcmIpcMsgType::QueryCaptureKeyboard)
        } else if id == 26 {
            Some(IcmIpcMsgType::PointerEvent)
        } else if id == 27 {
            Some(IcmIpcMsgType::KeyboardEvent)
        } else if id == 28 {
            Some(IcmIpcMsgType::UploadImage)
        } else if id == 29 {
            Some(IcmIpcMsgType::DestroyImage)
        } else if id == 30 {
            Some(IcmIpcMsgType::DrawUploadedImage)
        } else if id == 31 {
            Some(IcmIpcMsgType::DrawText)
        } else if id == 32 {
            Some(IcmIpcMsgType::SetWindowVisible)
        } else if id == 33 {
            Some(IcmIpcMsgType::RegisterKeybind)
        } else if id == 34 {
            Some(IcmIpcMsgType::UnregisterKeybind)
        } else if id == 35 {
            Some(IcmIpcMsgType::KeybindEvent)
        } else if id == 36 {
            Some(IcmIpcMsgType::WindowCreated)
        } else if id == 37 {
            Some(IcmIpcMsgType::WindowDestroyed)
        } else if id == 38 {
            Some(IcmIpcMsgType::RegisterClickRegion)
        } else if id == 39 {
            Some(IcmIpcMsgType::UnregisterClickRegion)
        } else if id == 40 {
            Some(IcmIpcMsgType::ClickRegionEvent)
        } else if id == 41 {
            Some(IcmIpcMsgType::RequestScreenCopy)
        } else if id == 42 {
            Some(IcmIpcMsgType::ScreenCopyData)
        } else if id == 43 {
            Some(IcmIpcMsgType::RegisterGlobalPointerEvent)
        } else if id == 44 {
            Some(IcmIpcMsgType::RegisterGlobalKeyboardEvent)
        } else if id == 45 {
            Some(IcmIpcMsgType::RegisterGlobalCaptureMouse)
        } else if id == 46 {
            Some(IcmIpcMsgType::RegisterGlobalCaptureKeyboard)
        } else if id == 58 {
            Some(IcmIpcMsgType::UnregisterGlobalCaptureKeyboard)
        } else if id == 59 {
            Some(IcmIpcMsgType::UnregisterGlobalCaptureMouse)
        } else if id == 47 {
            Some(IcmIpcMsgType::SetWindowPosition)
        } else if id == 48 {
            Some(IcmIpcMsgType::SetWindowSize)
        } else if id == 49 {
            Some(IcmIpcMsgType::SetWindowOpacity)
        } else if id == 50 {
            Some(IcmIpcMsgType::SetWindowTransform)
        } else if id == 78 {
            Some(IcmIpcMsgType::SetWindowBlur)
        } else if id == 79 {
            Some(IcmIpcMsgType::SetScreenEffect)
        } else if id == 80 {
            Some(IcmIpcMsgType::SetWindowEffect)
        } else if id == 60 {
            Some(IcmIpcMsgType::SetWindowLayer)
        } else if id == 61 {
            Some(IcmIpcMsgType::RaiseWindow)
        } else if id == 62 {
            Some(IcmIpcMsgType::LowerWindow)
        } else if id == 63 {
            Some(IcmIpcMsgType::SetWindowParent)
        } else if id == 64 {
            Some(IcmIpcMsgType::SetWindowTransform3d)
        } else if id == 65 {
            Some(IcmIpcMsgType::SetWindowMatrix)
        } else if id == 66 {
            Some(IcmIpcMsgType::SetWindowState)
        } else if id == 67 {
            Some(IcmIpcMsgType::FocusWindow)
        } else if id == 83 {
            Some(IcmIpcMsgType::BlurWindow)
        } else if id == 52 {
            Some(IcmIpcMsgType::QueryWindowPosition)
        } else if id == 53 {
            Some(IcmIpcMsgType::QueryWindowSize)
        } else if id == 54 {
            Some(IcmIpcMsgType::QueryWindowAttributes)
        } else if id == 68 {
            Some(IcmIpcMsgType::QueryWindowLayer)
        } else if id == 69 {
            Some(IcmIpcMsgType::QueryWindowState)
        } else if id == 55 {
            Some(IcmIpcMsgType::WindowPositionData)
        } else if id == 56 {
            Some(IcmIpcMsgType::WindowSizeData)
        } else if id == 57 {
            Some(IcmIpcMsgType::WindowAttributesData)
        } else if id == 70 {
            Some(IcmIpcMsgType::WindowLayerData)
        } else if id == 71 {
            Some(IcmIpcMsgType::WindowStateData)
        } else if id == 72 {
            Some(IcmIpcMsgType::QueryScreenDimensions)
        } else if id == 73 {
            Some(IcmIpcMsgType::ScreenDimensionsData)
        } else if id == 74 {
            Some(IcmIpcMsgType::QueryMonitors)
        } else if id == 75 {
            Some(IcmIpcMsgType::MonitorsData)
        } else if id == 51 {
            Some(IcmIpcMsgType::CompositorShutdown)
        } else if id == 76 {
            Some(IcmIpcMsgType::QueryWindowInfo)
        } else if id == 77 {
            Some(IcmIpcMsgType::WindowInfoData)
        } else if id == 81 {
            Some(IcmIpcMsgType::AnimateWindow)
        } else if id == 82 {
            Some(IcmIpcMsgType::StopAnimation)
        } else if id == 84 {
            Some(IcmIpcMsgType::SetWindowMeshTransform)
        } else if id == 85 {
            Some(IcmIpcMsgType::ClearWindowMeshTransform)
        } else if id == 86 {
            Some(IcmIpcMsgType::UpdateWindowMeshVertices)
        } else if id == 87 {
            Some(IcmIpcMsgType::QueryToplevelWindows)
        } else if id == 88 {
            Some(IcmIpcMsgType::ToplevelWindowsData)
        } else if id == 89 {
            Some(IcmIpcMsgType::SubscribeWindowEvents)
        } else if id == 90 {
            Some(IcmIpcMsgType::UnsubscribeWindowEvents)
        } else if id == 91 {
            Some(IcmIpcMsgType::WindowTitleChanged)
        } else if id == 92 {
            Some(IcmIpcMsgType::WindowStateChanged)
        } else if id == 93 {
            Some(IcmIpcMsgType::LaunchApp)
        } else {
            None
        }
    }

    /// Encode this message type as its numeric wire id.
    pub fn id(&self) -> (r: u16)
        ensures
            r == self.spec_id(),
    {
        match self {
            IcmIpcMsgType::CreateWindow => 1,
            IcmIpcMsgType::DestroyWindow => 2,
            IcmIpcMsgType::SetWindow => 3,
            IcmIpcMsgType::SetLayer => 4,
            IcmIpcMsgType::SetAttachments => 5,
            IcmIpcMsgType::DrawRect => 6,
            IcmIpcMsgType::ClearRects => 7,
            IcmIpcMsgType::ImportDmabuf => 8,
            IcmIpcMsgType::ExportDmabuf => 9,
            IcmIpcMsgType::DrawLine => 10,
            IcmIpcMsgType::DrawCircle => 11,
            IcmIpcMsgType::DrawPolygon => 12,
            IcmIpcMsgType::DrawImage => 13,
            IcmIpcMsgType::BlitBuffer => 14,
            IcmIpcMsgType::BatchBegin => 15,
            IcmIpcMsgType::BatchEnd => 16,
            IcmIpcMsgType::ExportSurface => 17,
            IcmIpcMsgType::ImportSurface => 18,
            IcmIpcMsgType::CreateBuffer => 19,
            IcmIpcMsgType::DestroyBuffer => 20,
            IcmIpcMsgType::QueryBufferInfo => 21,
            IcmIpcMsgType::RegisterPointerEvent => 22,
            IcmIpcMsgType::RegisterKeyboardEvent => 23,
            IcmIpcMsgType::QueryCaptureMouse => 24,
            IcmIpcMsgType::QueryCaptureKeyboard => 25,
            IcmIpcMsgType::PointerEvent => 26,
            IcmIpcMsgType::KeyboardEvent => 27,
            IcmIpcMsgType::UploadImage => 28,
            IcmIpcMsgType::DestroyImage => 29,
            IcmIpcMsgType::DrawUploadedImage => 30,
            IcmIpcMsgType::DrawText => 31,
            IcmIpcMsgType::SetWindowVisible => 32,
            IcmIpcMsgType::RegisterKeybind => 33,
            IcmIpcMsgType::UnregisterKeybind => 34,
            IcmIpcMsgType::KeybindEvent => 35,
            IcmIpcMsgType::WindowCreated => 36,
            IcmIpcMsgType::WindowDestroyed => 37,
            IcmIpcMsgType::RegisterClickRegion => 38,
            IcmIpcMsgType::UnregisterClickRegion => 39,
            IcmIpcMsgType::ClickRegionEvent => 40,
            IcmIpcMsgType::RequestScreenCopy => 41,
            IcmIpcMsgType::ScreenCopyData => 42,
            IcmIpcMsgType::RegisterGlobalPointerEvent => 43,
            IcmIpcMsgType::RegisterGlobalKeyboardEvent => 44,
            IcmIpcMsgType::RegisterGlobalCaptureMouse => 45,
            IcmIpcMsgType::RegisterGlobalCaptureKeyboard => 46,
            IcmIpcMsgType::UnregisterGlobalCaptureKeyboard => 58,
            IcmIpcMsgType::UnregisterGlobalCaptureMouse => 59,
            IcmIpcMsgType::SetWindowPosition => 47,
            IcmIpcMsgType::SetWindowSize => 48,
            IcmIpcMsgType::SetWindowOpacity => 49,
            IcmIpcMsgType::SetWindowTransform => 50,
            IcmIpcMsgType::SetWindowBlur => 78,
            IcmIpcMsgType::SetScreenEffect => 79,
            IcmIpcMsgType::SetWindowEffect => 80,
            IcmIpcMsgType::SetWindowLayer => 60,
            IcmIpcMsgType::RaiseWindow => 61,
            IcmIpcMsgType::LowerWindow => 62,
            IcmIpcMsgType::SetWindowParent => 63,
            IcmIpcMsgType::SetWindowTransform3d => 64,
            IcmIpcMsgType::SetWindowMatrix => 65,
            IcmIpcMsgType::SetWindowState => 66,
            IcmIpcMsgType::FocusWindow => 67,
            IcmIpcMsgType::BlurWindow => 83,
            IcmIpcMsgType::QueryWindowPosition => 52,
            IcmIpcMsgType::QueryWindowSize => 53,
            IcmIpcMsgType::QueryWindowAttributes => 54,
            IcmIpcMsgType::QueryWindowLayer => 68,
            IcmIpcMsgType::QueryWindowState => 69,
            IcmIpcMsgType::WindowPositionData => 55,
            IcmIpcMsgType::WindowSizeData => 56,
            IcmIpcMsgType::WindowAttributesData => 57,
            IcmIpcMsgType::WindowLayerData => 70,
            IcmIpcMsgType::WindowStateData => 71,
            IcmIpcMsgType::QueryScreenDimensions => 72,
            IcmIpcMsgType::ScreenDimensionsData => 73,
            IcmIpcMsgType::QueryMonitors => 74,
            IcmIpcMsgType::MonitorsData => 75,
            IcmIpcMsgType::CompositorShutdown => 51,
            IcmIpcMsgType::QueryWindowInfo => 76,
            IcmIpcMsgType::WindowInfoData => 77,
            IcmIpcMsgType::AnimateWindow => 81,
            IcmIpcMsgType::StopAnimation => 82,
            IcmIpcMsgType::SetWindowMeshTransform => 84,
            IcmIpcMsgType::ClearWindowMeshTransform => 85,
            IcmIpcMsgType::UpdateWindowMeshVertices => 86,
            IcmIpcMsgType::QueryToplevelWindows => 87,
            IcmIpcMsgType::ToplevelWindowsData => 88,
            IcmIpcMsgType::SubscribeWindowEvents => 89,
            IcmIpcMsgType::UnsubscribeWindowEvents => 90,
            IcmIpcMsgType::WindowTitleChanged => 91,
            IcmIpcMsgType::WindowStateChanged => 92,
            IcmIpcMsgType::LaunchApp => 93,
        }
    }

    /// Look a numeric id up in the registry.  `None` means the id is not a
    /// registered message type, which a decoder reports as
    /// `UnknownMessageType`.
    pub fn from_id(id: u16) -> (r: Option<IcmIpcMsgType>)
        ensures
            r == Self::spec_from_id(id),
    {
        if id == 1 {
            Some(IcmIpcMsgType::CreateWindow)
        } else if id == 2 {
            Some(IcmIpcMsgType::DestroyWindow)
        } else if id == 3 {
            Some(IcmIpcMsgType::SetWindow)
        } else if id == 4 {
            Some(IcmIpcMsgType::SetLayer)
        } else if id == 5 {
            Some(IcmIpcMsgType::SetAttachments)
        } else if id == 6 {
            Some(IcmIpcMsgType::DrawRect)
        } else if id == 7 {
            Some(IcmIpcMsgType::ClearRects)
        } else if id == 8 {
            Some(IcmIpcMsgType::ImportDmabuf)
        } else if id == 9 {
            Some(IcmIpcMsgType::ExportDmabuf)
        } else if id == 10 {
            Some(IcmIpcMsgType::DrawLine)
        } else if id == 11 {
            Some(IcmIpcMsgType::DrawCircle)
        } else if id == 12 {
            Some(IcmIpcMsgType::DrawPolygon)
        } else if id == 13 {
            Some(IcmIpcMsgType::DrawImage)
        } else if id == 14 {
            Some(IcmIpcMsgType::BlitBuffer)
        } else if id == 15 {
            Some(IcmIpcMsgType::BatchBegin)
        } else if id == 16 {
            Some(IcmIpcMsgType::BatchEnd)
        } else if id == 17 {
            Some(IcmIpcMsgType::ExportSurface)
        } else if id == 18 {
            Some(IcmIpcMsgType::ImportSurface)
        } else if id == 19 {
            Some(IcmIpcMsgType::CreateBuffer)
        } else if id == 20 {
            Some(IcmIpcMsgType::DestroyBuffer)
        } else if id == 21 {
            Some(IcmIpcMsgType::QueryBufferInfo)
        } else if id == 22 {
            Some(IcmIpcMsgType::RegisterPointerEvent)
        } else if id == 23 {
            Some(IcmIpcMsgType::RegisterKeyboardEvent)
        } else if id == 24 {
            Some(IcmIpcMsgType::QueryCaptureMouse)
        } else if id == 25 {
            Some(IcmIpcMsgType::QueryCaptureKeyboard)
        } else if id == 26 {
            Some(IcmIpcMsgType::PointerEvent)
        } else if id == 27 {
            Some(IcmIpcMsgType::KeyboardEvent)
        } else if id == 28 {
            Some(IcmIpcMsgType::UploadImage)
        } else if id == 29 {
            Some(IcmIpcMsgType::DestroyImage)
        } else if id == 30 {
            Some(IcmIpcMsgType::DrawUploadedImage)
        } else if id == 31 {
            Some(IcmIpcMsgType::DrawText)
        } else if id == 32 {
            Some(IcmIpcMsgType::SetWindowVisible)
        } else if id == 33 {
            Some(IcmIpcMsgType::RegisterKeybind)
        } else if id == 34 {
            Some(IcmIpcMsgType::UnregisterKeybind)
        } else if id == 35 {
            Some(IcmIpcMsgType::KeybindEvent)
        } else if id == 36 {
            Some(IcmIpcMsgType::WindowCreated)
        } else if id == 37 {
            Some(IcmIpcMsgType::WindowDestroyed)
        } else if id == 38 {
            Some(IcmIpcMsgType::RegisterClickRegion)
        } else if id == 39 {
            Some(IcmIpcMsgType::UnregisterClickRegion)
        } else if id == 40 {
            Some(IcmIpcMsgType::ClickRegionEvent)
        } else if id == 41 {
            Some(IcmIpcMsgType::RequestScreenCopy)
        } else if id == 42 {
            Some(IcmIpcMsgType::ScreenCopyData)
        } else if id == 43 {
            Some(IcmIpcMsgType::RegisterGlobalPointerEvent)
        } else if id == 44 {
            Some(IcmIpcMsgType::RegisterGlobalKeyboardEvent)
        } else if id == 45 {
            Some(IcmIpcMsgType::RegisterGlobalCaptureMouse)
        } else if id == 46 {
            Some(IcmIpcMsgType::RegisterGlobalCaptureKeyboard)
        } else if id == 58 {
            Some(IcmIpcMsgType::UnregisterGlobalCaptureKeyboard)
        } else if id == 59 {
            Some(IcmIpcMsgType::UnregisterGlobalCaptureMouse)
        } else if id == 47 {
            Some(IcmIpcMsgType::SetWindowPosition)
        } else if id == 48 {
            Some(IcmIpcMsgType::SetWindowSize)
        } else if id == 49 {
            Some(IcmIpcMsgType::SetWindowOpacity)
        } else if id == 50 {
            Some(IcmIpcMsgType::SetWindowTransform)
        } else if id == 78 {
            Some(IcmIpcMsgType::SetWindowBlur)
        } else if id == 79 {
            Some(IcmIpcMsgType::SetScreenEffect)
        } else if id == 80 {
            Some(IcmIpcMsgType::SetWindowEffect)
        } else if id == 60 {
            Some(IcmIpcMsgType::SetWindowLayer)
        } else if id == 61 {
            Some(IcmIpcMsgType::RaiseWindow)
        } else if id == 62 {
            Some(IcmIpcMsgType::LowerWindow)
        } else if id == 63 {
            Some(IcmIpcMsgType::SetWindowParent)
        } else if id == 64 {
            Some(IcmIpcMsgType::SetWindowTransform3d)
        } else if id == 65 {
            Some(IcmIpcMsgType::SetWindowMatrix)
        } else if id == 66 {
            Some(IcmIpcMsgType::SetWindowState)
        } else if id == 67 {
            Some(IcmIpcMsgType::FocusWindow)
        } else if id == 83 {
            Some(IcmIpcMsgType::BlurWindow)
        } else if id == 52 {
            Some(IcmIpcMsgType::QueryWindowPosition)
        } else if id == 53 {
            Some(IcmIpcMsgType::QueryWindowSize)
        } else if id == 54 {
            Some(IcmIpcMsgType::QueryWindowAttributes)
        } else if id == 68 {
            Some(IcmIpcMsgType::QueryWindowLayer)
        } else if id == 69 {
            Some(IcmIpcMsgType::QueryWindowState)
        } else if id == 55 {
            Some(IcmIpcMsgType::WindowPositionData)
        } else if id == 56 {
            Some(IcmIpcMsgType::WindowSizeData)
        } else if id == 57 {
            Some(IcmIpcMsgType::WindowAttributesData)
        } else if id == 70 {
            Some(IcmIpcMsgType::WindowLayerData)
        } else if id == 71 {
            Some(IcmIpcMsgType::WindowStateData)
        } else if id == 72 {
            Some(IcmIpcMsgType::QueryScreenDimensions)
        } else if id == 73 {
            Some(IcmIpcMsgType::ScreenDimensionsData)
        } else if id == 74 {
            Some(IcmIpcMsgType::QueryMonitors)
        } else if id == 75 {
            Some(IcmIpcMsgType::MonitorsData)
        } else if id == 51 {
            Some(IcmIpcMsgType::CompositorShutdown)
        } else if id == 76 {
            Some(IcmIpcMsgType::QueryWindowInfo)
        } else if id == 77 {
            Some(IcmIpcMsgType::WindowInfoData)
        } else if id == 81 {
            Some(IcmIpcMsgType::AnimateWindow)
        } else if id == 82 {
            Some(IcmIpcMsgType::StopAnimation)
        } else if id == 84 {
            Some(IcmIpcMsgType::SetWindowMeshTransform)
        } else if id == 85 {
            Some(IcmIpcMsgType::ClearWindowMeshTransform)
        } else if id == 86 {
            Some(IcmIpcMsgType::UpdateWindowMeshVertices)
        } else if id == 87 {
            Some(IcmIpcMsgType::QueryToplevelWindows)
        } else if id == 88 {
            Some(IcmIpcMsgType::ToplevelWindowsData)
        } else if id == 89 {
            Some(IcmIpcMsgType::SubscribeWindowEvents)
        } else if id == 90 {
            Some(IcmIpcMsgType::UnsubscribeWindowEvents)
        } else if id == 91 {
            Some(IcmIpcMsgType::WindowTitleChanged)
        } else if id == 92 {
            Some(IcmIpcMsgType::WindowStateChanged)
        } else if id == 93 {
            Some(IcmIpcMsgType::LaunchApp)
        } else {
            None
        }
    }

    /// The registry is consistent: looking up a type's own id finds the type,
    /// so distinct types always carry distinct ids.
    pub proof fn lemma_from_id_of_id(t: IcmIpcMsgType)
        ensures
            Self::spec_from_id(t.spec_id()) == Some(t),
    {
    }

    /// The payload length rule registered for this message type.
    pub open spec fn spec_payload_shape(self) -> PayloadShape {
        match self {
            IcmIpcMsgType::CreateWindow => PayloadShape::Exact(28),
            IcmIpcMsgType::DestroyWindow => PayloadShape::Unspecified,
            IcmIpcMsgType::SetWindow => PayloadShape::Unspecified,
            IcmIpcMsgType::SetLayer => PayloadShape::Unspecified,
            IcmIpcMsgType::SetAttachments => PayloadShape::Unspecified,
            IcmIpcMsgType::DrawRect => PayloadShape::Exact(24),
            IcmIpcMsgType::ClearRects => PayloadShape::Unspecified,
            IcmIpcMsgType::ImportDmabuf => PayloadShape::Unspecified,
            IcmIpcMsgType::ExportDmabuf => PayloadShape::Unspecified,
            IcmIpcMsgType::DrawLine => PayloadShape::Unspecified,
            IcmIpcMsgType::DrawCircle => PayloadShape::Unspecified,
            IcmIpcMsgType::DrawPolygon => PayloadShape::Unspecified,
            IcmIpcMsgType::DrawImage => PayloadShape::Unspecified,
            IcmIpcMsgType::BlitBuffer => PayloadShape::Unspecified,
            IcmIpcMsgType::BatchBegin => PayloadShape::Unspecified,
            IcmIpcMsgType::BatchEnd => PayloadShape::Unspecified,
            IcmIpcMsgType::ExportSurface => PayloadShape::Unspecified,
            IcmIpcMsgType::ImportSurface => PayloadShape::Unspecified,
            IcmIpcMsgType::CreateBuffer => PayloadShape::Exact(20),
            IcmIpcMsgType::DestroyBuffer => PayloadShape::Exact(4),
            IcmIpcMsgType::QueryBufferInfo => PayloadShape::Unspecified,
            IcmIpcMsgType::RegisterPointerEvent => PayloadShape::Exact(4),
            IcmIpcMsgType::RegisterKeyboardEvent => PayloadShape::Exact(4),
            IcmIpcMsgType::QueryCaptureMouse => PayloadShape::Exact(4),
            IcmIpcMsgType::QueryCaptureKeyboard => PayloadShape::Exact(4),
            IcmIpcMsgType::PointerEvent => PayloadShape::Exact(24),
            IcmIpcMsgType::KeyboardEvent => PayloadShape::Exact(20),
            IcmIpcMsgType::UploadImage => PayloadShape::AtLeast(20),
            IcmIpcMsgType::DestroyImage => PayloadShape::Exact(4),
            IcmIpcMsgType::DrawUploadedImage => PayloadShape::Exact(41),
            IcmIpcMsgType::DrawText => PayloadShape::AtLeast(21),
            IcmIpcMsgType::SetWindowVisible => PayloadShape::Exact(5),
            IcmIpcMsgType::RegisterKeybind => PayloadShape::Exact(12),
            IcmIpcMsgType::UnregisterKeybind => PayloadShape::Exact(4),
            IcmIpcMsgType::KeybindEvent => PayloadShape::Exact(4),
            IcmIpcMsgType::WindowCreated => PayloadShape::Exact(14),
            IcmIpcMsgType::WindowDestroyed => PayloadShape::Exact(4),
            IcmIpcMsgType::RegisterClickRegion => PayloadShape::Exact(24),
            IcmIpcMsgType::UnregisterClickRegion => PayloadShape::Exact(4),
            IcmIpcMsgType::ClickRegionEvent => PayloadShape::Exact(12),
            IcmIpcMsgType::RequestScreenCopy => PayloadShape::Exact(20),
            IcmIpcMsgType::ScreenCopyData => PayloadShape::AtLeast(20),
            IcmIpcMsgType::RegisterGlobalPointerEvent => PayloadShape::Exact(0),
            IcmIpcMsgType::RegisterGlobalKeyboardEvent => PayloadShape::Exact(0),
            IcmIpcMsgType::RegisterGlobalCaptureMouse => PayloadShape::Exact(0),
            IcmIpcMsgType::RegisterGlobalCaptureKeyboard => PayloadShape::Exact(0),
            IcmIpcMsgType::UnregisterGlobalCaptureKeyboard => PayloadShape::Exact(0),
            IcmIpcMsgType::UnregisterGlobalCaptureMouse => PayloadShape::Exact(0),
            IcmIpcMsgType::SetWindowPosition => PayloadShape::Exact(12),
            IcmIpcMsgType::SetWindowSize => PayloadShape::Exact(12),
            IcmIpcMsgType::SetWindowOpacity => PayloadShape::Exact(8),
            IcmIpcMsgType::SetWindowTransform => PayloadShape::Exact(16),
            IcmIpcMsgType::SetWindowBlur => PayloadShape::Exact(9),
            IcmIpcMsgType::SetScreenEffect => PayloadShape::Exact(257),
            IcmIpcMsgType::SetWindowEffect => PayloadShape::Exact(261),
            IcmIpcMsgType::SetWindowLayer => PayloadShape::Exact(8),
            IcmIpcMsgType::RaiseWindow => PayloadShape::Exact(4),
            IcmIpcMsgType::LowerWindow => PayloadShape::Exact(4),
            IcmIpcMsgType::SetWindowParent => PayloadShape::Exact(8),
            IcmIpcMsgType::SetWindowTransform3d => PayloadShape::Exact(40),
            IcmIpcMsgType::SetWindowMatrix => PayloadShape::Exact(68),
            IcmIpcMsgType::SetWindowState => PayloadShape::Exact(8),
            IcmIpcMsgType::FocusWindow => PayloadShape::Exact(4),
            IcmIpcMsgType::BlurWindow => PayloadShape::Exact(4),
            IcmIpcMsgType::QueryWindowPosition => PayloadShape::Exact(4),
            IcmIpcMsgType::QueryWindowSize => PayloadShape::Exact(4),
            IcmIpcMsgType::QueryWindowAttributes => PayloadShape::Exact(4),
            IcmIpcMsgType::QueryWindowLayer => PayloadShape::Exact(4),
            IcmIpcMsgType::QueryWindowState => PayloadShape::Exact(4),
            IcmIpcMsgType::WindowPositionData => PayloadShape::Exact(12),
            IcmIpcMsgType::WindowSizeData => PayloadShape::Exact(12),
            IcmIpcMsgType::WindowAttributesData => PayloadShape::Exact(21),
            IcmIpcMsgType::WindowLayerData => PayloadShape::Exact(12),
            IcmIpcMsgType::WindowStateData => PayloadShape::Exact(9),
            IcmIpcMsgType::QueryScreenDimensions => PayloadShape::Exact(0),
            IcmIpcMsgType::ScreenDimensionsData => PayloadShape::Exact(12),
            IcmIpcMsgType::QueryMonitors => PayloadShape::Exact(0),
            IcmIpcMsgType::MonitorsData => PayloadShape::AtLeast(4),
            IcmIpcMsgType::CompositorShutdown => PayloadShape::Exact(0),
            IcmIpcMsgType::QueryWindowInfo => PayloadShape::Exact(4),
            IcmIpcMsgType::WindowInfoData => PayloadShape::AtLeast(55),
            IcmIpcMsgType::AnimateWindow => PayloadShape::Exact(60),
            IcmIpcMsgType::StopAnimation => PayloadShape::Exact(4),
            IcmIpcMsgType::SetWindowMeshTransform => PayloadShape::Unspecified,
            IcmIpcMsgType::ClearWindowMeshTransform => PayloadShape::Unspecified,
            IcmIpcMsgType::UpdateWindowMeshVertices => PayloadShape::Unspecified,
            IcmIpcMsgType::QueryToplevelWindows => PayloadShape::Exact(4),
            IcmIpcMsgType::ToplevelWindowsData => PayloadShape::Unspecified,
            IcmIpcMsgType::SubscribeWindowEvents => PayloadShape::Exact(4),
            IcmIpcMsgType::UnsubscribeWindowEvents => PayloadShape::Unspecified,
            IcmIpcMsgType::WindowTitleChanged => PayloadShape::Unspecified,
            IcmIpcMsgType::WindowStateChanged => PayloadShape::Unspecified,
            IcmIpcMsgType::LaunchApp => PayloadShape::AtLeast(5),
        }
    }

    /// Fetch the payload length rule for this message type.
    pub fn payload_shape(&self) -> (r: PayloadShape)
        ensures
            r == self.spec_payload_shape(),
    {
        match self {
            IcmIpcMsgType::CreateWindow => PayloadShape::Exact(28),
            IcmIpcMsgType::DestroyWindow => PayloadShape::Unspecified,
            IcmIpcMsgType::SetWindow => PayloadShape::Unspecified,
            IcmIpcMsgType::SetLayer => PayloadShape::Unspecified,
            IcmIpcMsgType::SetAttachments => PayloadShape::Unspecified,
            IcmIpcMsgType::DrawRect => PayloadShape::Exact(24),
            IcmIpcMsgType::ClearRects => PayloadShape::Unspecified,
            IcmIpcMsgType::ImportDmabuf => PayloadShape::Unspecified,
            IcmIpcMsgType::ExportDmabuf => PayloadShape::Unspecified,
            IcmIpcMsgType::DrawLine => PayloadShape::Unspecified,
            IcmIpcMsgType::DrawCircle => PayloadShape::Unspecified,
            IcmIpcMsgType::DrawPolygon => PayloadShape::Unspecified,
            IcmIpcMsgType::DrawImage => PayloadShape::Unspecified,
            IcmIpcMsgType::BlitBuffer => PayloadShape::Unspecified,
            IcmIpcMsgType::BatchBegin => PayloadShape::Unspecified,
            IcmIpcMsgType::BatchEnd => PayloadShape::Unspecified,
            IcmIpcMsgType::ExportSurface => PayloadShape::Unspecified,
            IcmIpcMsgType::ImportSurface => PayloadShape::Unspecified,
            IcmIpcMsgType::CreateBuffer => PayloadShape::Exact(20),
            IcmIpcMsgType::DestroyBuffer => PayloadShape::Exact(4),
            IcmIpcMsgType::QueryBufferInfo => PayloadShape::Unspecified,
            IcmIpcMsgType::RegisterPointerEvent => PayloadShape::Exact(4),
            IcmIpcMsgType::RegisterKeyboardEvent => PayloadShape::Exact(4),
            IcmIpcMsgType::QueryCaptureMouse => PayloadShape::Exact(4),
            IcmIpcMsgType::QueryCaptureKeyboard => PayloadShape::Exact(4),
            IcmIpcMsgType::PointerEvent => PayloadShape::Exact(24),
            IcmIpcMsgType::KeyboardEvent => PayloadShape::Exact(20),
            IcmIpcMsgType::UploadImage => PayloadShape::AtLeast(20),
            IcmIpcMsgType::DestroyImage => PayloadShape::Exact(4),
            IcmIpcMsgType::DrawUploadedImage => PayloadShape::Exact(41),
            IcmIpcMsgType::DrawText => PayloadShape::AtLeast(21),
            IcmIpcMsgType::SetWindowVisible => PayloadShape::Exact(5),
            IcmIpcMsgType::RegisterKeybind => PayloadShape::Exact(12),
            IcmIpcMsgType::UnregisterKeybind => PayloadShape::Exact(4),
            IcmIpcMsgType::KeybindEvent => PayloadShape::Exact(4),
            IcmIpcMsgType::WindowCreated => PayloadShape::Exact(14),
            IcmIpcMsgType::WindowDestroyed => PayloadShape::Exact(4),
            IcmIpcMsgType::RegisterClickRegion => PayloadShape::Exact(24),
            IcmIpcMsgType::UnregisterClickRegion => PayloadShape::Exact(4),
            IcmIpcMsgType::ClickRegionEvent => PayloadShape::Exact(12),
            IcmIpcMsgType::RequestScreenCopy => PayloadShape::Exact(20),
            IcmIpcMsgType::ScreenCopyData => PayloadShape::AtLeast(20),
            IcmIpcMsgType::RegisterGlobalPointerEvent => PayloadShape::Exact(0),
            IcmIpcMsgType::RegisterGlobalKeyboardEvent => PayloadShape::Exact(0),
            IcmIpcMsgType::RegisterGlobalCaptureMouse => PayloadShape::Exact(0),
            IcmIpcMsgType::RegisterGlobalCaptureKeyboard => PayloadShape::Exact(0),
            IcmIpcMsgType::UnregisterGlobalCaptureKeyboard => PayloadShape::Exact(0),
            IcmIpcMsgType::UnregisterGlobalCaptureMouse => PayloadShape::Exact(0),
            IcmIpcMsgType::SetWindowPosition => PayloadShape::Exact(12),
            IcmIpcMsgType::SetWindowSize => PayloadShape::Exact(12),
            IcmIpcMsgType::SetWindowOpacity => PayloadShape::Exact(8),
            IcmIpcMsgType::SetWindowTransform => PayloadShape::Exact(16),
            IcmIpcMsgType::SetWindowBlur => PayloadShape::Exact(9),
            IcmIpcMsgType::SetScreenEffect => PayloadShape::Exact(257),
            IcmIpcMsgType::SetWindowEffect => PayloadShape::Exact(261),
            IcmIpcMsgType::SetWindowLayer => PayloadShape::Exact(8),
            IcmIpcMsgType::RaiseWindow => PayloadShape::Exact(4),
            IcmIpcMsgType::LowerWindow => PayloadShape::Exact(4),
            IcmIpcMsgType::SetWindowParent => PayloadShape::Exact(8),
            IcmIpcMsgType::SetWindowTransform3d => PayloadShape::Exact(40),
            IcmIpcMsgType::SetWindowMatrix => PayloadShape::Exact(68),
            IcmIpcMsgType::SetWindowState => PayloadShape::Exact(8),
            IcmIpcMsgType::FocusWindow => PayloadShape::Exact(4),
            IcmIpcMsgType::BlurWindow => PayloadShape::Exact(4),
            IcmIpcMsgType::QueryWindowPosition => PayloadShape::Exact(4),
            IcmIpcMsgType::QueryWindowSize => PayloadShape::Exact(4),
            IcmIpcMsgType::QueryWindowAttributes => PayloadShape::Exact(4),
            IcmIpcMsgType::QueryWindowLayer => PayloadShape::Exact(4),
            IcmIpcMsgType::QueryWindowState => PayloadShape::Exact(4),
            IcmIpcMsgType::WindowPositionData => PayloadShape::Exact(12),
            IcmIpcMsgType::WindowSizeData => PayloadShape::Exact(12),
            IcmIpcMsgType::WindowAttributesData => PayloadShape::Exact(21),
            IcmIpcMsgType::WindowLayerData => PayloadShape::Exact(12),
            IcmIpcMsgType::WindowStateData => PayloadShape::Exact(9),
            IcmIpcMsgType::QueryScreenDimensions => PayloadShape::Exact(0),
            IcmIpcMsgType::ScreenDimensionsData => PayloadShape::Exact(12),
            IcmIpcMsgType::QueryMonitors => PayloadShape::Exact(0),
            IcmIpcMsgType::MonitorsData => PayloadShape::AtLeast(4),
            IcmIpcMsgType::CompositorShutdown => PayloadShape::Exact(0),
            IcmIpcMsgType::QueryWindowInfo => PayloadShape::Exact(4),
            IcmIpcMsgType::WindowInfoData => PayloadShape::AtLeast(55),
            IcmIpcMsgType::AnimateWindow => PayloadShape::Exact(60),
            IcmIpcMsgType::StopAnimation => PayloadShape::Exact(4),
            IcmIpcMsgType::SetWindowMeshTransform => PayloadShape::Unspecified,
            IcmIpcMsgType::ClearWindowMeshTransform => PayloadShape::Unspecified,
            IcmIpcMsgType::UpdateWindowMeshVertices => PayloadShape::Unspecified,
            IcmIpcMsgType::QueryToplevelWindows => PayloadShape::Exact(4),
            IcmIpcMsgType::ToplevelWindowsData => PayloadShape::Unspecified,
            IcmIpcMsgType::SubscribeWindowEvents => PayloadShape::Exact(4),
            IcmIpcMsgType::UnsubscribeWindowEvents => PayloadShape::Unspecified,
            IcmIpcMsgType::WindowTitleChanged => PayloadShape::Unspecified,
            IcmIpcMsgType::WindowStateChanged => PayloadShape::Unspecified,
            IcmIpcMsgType::LaunchApp => PayloadShape::AtLeast(5),
        }
    }
}

/// Whether a payload of `plen` bytes fits the length rule `shape`.
pub open spec fn spec_payload_len_ok(shape: PayloadShape, plen: int) -> bool {
    match shape {
        PayloadShape::Exact(n) => plen == n,
        PayloadShape::AtLeast(n) => plen >= n,
        PayloadShape::Unspecified => true,
    }
}

/// Hold a received header against the registry before decoding: the declared
/// total length must cover the header itself, the handle count must lie in
/// `0..=4`, the id must be registered, and the declared payload length must
/// fit the type's expected size.  Returns the payload length.
pub fn validate_header(h: &IcmIpcHeader) -> (r: Result<u32, IpcError>)
    ensures
        h.length < 16 ==> r == Err::<u32, IpcError>(IpcError::FramingViolation),
        h.length >= 16 && !(0 <= h.num_fds <= 4) ==> r == Err::<u32, IpcError>(
            IpcError::FramingViolation,
        ),
        h.length >= 16 && 0 <= h.num_fds <= 4 && IcmIpcMsgType::spec_from_id(h.msg_type)
            is None ==> r == Err::<u32, IpcError>(IpcError::UnknownMessageType),
        (h.length >= 16 && 0 <= h.num_fds <= 4 && IcmIpcMsgType::spec_from_id(h.msg_type)
            is Some) ==> {
            let t = IcmIpcMsgType::spec_from_id(h.msg_type).unwrap();
            if spec_payload_len_ok(t.spec_payload_shape(), h.length - 16) {
                r == Ok::<u32, IpcError>((h.length - 16) as u32)
            } else {
                r == Err::<u32, IpcError>(IpcError::FramingViolation)
            }
        },
{
    if h.length < 16 {
        return Err(IpcError::FramingViolation);
    }
    if h.num_fds < 0 || h.num_fds > 4 {
        return Err(IpcError::FramingViolation);
    }
    let plen = h.length - 16;
    match IcmIpcMsgType::from_id(h.msg_type) {
        None => Err(IpcError::UnknownMessageType),
        Some(t) => match t.payload_shape() {
            PayloadShape::Exact(n) => {
                if plen == n {
                    Ok(plen)
                } else {
                    Err(IpcError::FramingViolation)
                }
            },
            PayloadShape::AtLeast(n) => {
                if plen >= n {
                    Ok(plen)
                } else {
                    Err(IpcError::FramingViolation)
                }
            },
            PayloadShape::Unspecified => Ok(plen),
        },
    }
}

} // verus!
