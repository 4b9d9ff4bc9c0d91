//! The session state machine: owner of at most one native connection
//! identifier, enforcing the legal order of the native calls.
//!
//! States move `Uninitialized → Initialized → ConnectionCreated → Joined`
//! and back down one step at a time. The native library is reached over an
//! unsafe C ABI that this crate does not touch; instead every operation is
//! split in two:
//!
//! * `begin_*` validates the current state, marshals the arguments, and
//!   returns the payload for exactly one native call — or the error that
//!   forbids it, before any native call could be made;
//! * `complete_*` takes the native return code and moves the state machine:
//!   code zero commits the transition, a nonzero code leaves the state as
//!   it was (with the tolerant exceptions of the teardown path) and returns
//!   the code verbatim.
//!
//! The caller performs the native call in between and is expected to hand
//! `complete_*` the same arguments it gave `begin_*`. A buffer inside a
//! call payload only needs to live for that one native call.

use vstd::prelude::*;
use vstd::string::StringSliceAdditionalSpecFns;
use vstd::string::StrSliceExecFns;
use vstd::utf8::encode_utf8;
use crate::errors::ErrorCode;
use crate::errors::RtcError;
use crate::errors::spec_code_to_result;
use crate::marshal::encode_c_bytes;
use crate::marshal::encode_c_string;
use crate::marshal::encode_fixed_buffer;
use crate::marshal::zero_padded;
use crate::options::ChannelOptions;
use crate::options::LICENSE_CAPACITY;
use crate::options::PRODUCT_ID_CAPACITY;
use crate::options::ServiceOptions;
use crate::options::VideoFrameInfo;
use crate::options::spec_log_level_code;
use crate::options::log_level_code;

verus! {

/// The four lifecycle states of a session.
#[derive(Clone, Copy, Debug, PartialEq, Eq, Structural)]
pub enum SessionState {
    /// No native resources are held.
    Uninitialized,
    /// The native library is initialized; no connection exists.
    Initialized,
    /// A native connection identifier is held; no channel is joined.
    ConnectionCreated,
    /// The connection has joined a channel.
    Joined,
}

/// Mathematical view of a [`Session`]: its state, the optional native
/// connection identifier, and the recorded identifiers as plain byte
/// sequences.
#[verifier::ext_equal]
pub struct SessionView {
    /// Current lifecycle state.
    pub state: SessionState,
    /// Native connection identifier, present exactly while the state is
    /// `ConnectionCreated` or `Joined`.
    pub connection_id: Option<u32>,
    /// Bytes of the application identifier given at construction.
    pub app_id: Seq<u8>,
    /// Bytes of the channel name recorded by the last successful join.
    pub channel: Seq<u8>,
    /// Bytes of the authentication token recorded by the last successful
    /// join.
    pub token: Seq<u8>,
    /// Local user identifier recorded by the last successful join.
    pub user_id: u32,
    /// Frame description used by sends that do not name one.
    pub default_frame_info: Option<VideoFrameInfo>,
}

impl SessionView {
    /// Invariant of every reachable session: a connection identifier is
    /// present if and only if the state says one exists, and the recorded
    /// channel name and token hold no embedded terminator.
    pub open spec fn wf(self) -> bool {
        &&& self.connection_id is Some <==> (self.state is ConnectionCreated
            || self.state is Joined)
        &&& !self.channel.contains(0u8)
        &&& !self.token.contains(0u8)
    }

    /// State after a native initialize returning `code`, and the result the
    /// session reports for it.
    pub open spec fn complete_initialize(self, code: ErrorCode) -> (SessionView, Result<
        (),
        RtcError,
    >) {
        if !(self.state is Uninitialized) {
            (self, Err(RtcError::InvalidState))
        } else if code == 0 {
            (SessionView { state: SessionState::Initialized, ..self }, Ok(()))
        } else {
            (self, Err(RtcError::NativeError(code)))
        }
    }

    /// True while the session holds a native connection identifier.
    pub open spec fn has_connection(self) -> bool {
        self.state is ConnectionCreated || self.state is Joined
    }

    /// State after a native join returning `code`, with the channel name,
    /// user identifier and token the join was made with, and the result the
    /// session reports for it. A successful join records the three for
    /// diagnostics; a rejoin from `Joined` replaces them.
    pub open spec fn complete_join_channel(
        self,
        channel: Seq<u8>,
        user_id: u32,
        token: Seq<u8>,
        code: ErrorCode,
    ) -> (SessionView, Result<(), RtcError>) {
        if !self.has_connection() {
            (self, Err(RtcError::InvalidState))
        } else if code == 0 {
            (SessionView { state: SessionState::Joined, channel, token, user_id, ..self }, Ok(()))
        } else {
            (self, Err(RtcError::NativeError(code)))
        }
    }

    /// The native call one leave operation makes: the connection to leave
    /// when the session is joined, none otherwise.
    pub open spec fn begin_leave_channel(self) -> Option<u32> {
        if self.state is Joined {
            self.connection_id
        } else {
            None
        }
    }

    /// State after one leave operation whose native call (made only when
    /// joined) returned `code`, and the result the session reports for it.
    ///
    /// Leaving always takes the session out of `Joined`: a native failure
    /// is still reported through the code, but the session no longer
    /// considers itself joined, so a teardown path can never be stuck on a
    /// channel. From any other state, leaving is a successful no-op with
    /// no native call — teardown must never fail solely because there was
    /// nothing to leave.
    pub open spec fn leave_channel(self, code: ErrorCode) -> (SessionView, Result<(), RtcError>) {
        if self.state is Joined {
            (SessionView { state: SessionState::ConnectionCreated, ..self }, spec_code_to_result(code))
        } else {
            (self, Ok(()))
        }
    }

    /// State after one destroy-connection operation whose native call
    /// (made only when a connection exists) returned `code`, and the
    /// result the session reports for it. Destroying from `Joined` leaves
    /// the channel implicitly first; from `Initialized` it is a successful
    /// no-op; while uninitialized there is nothing the identifier could
    /// belong to.
    pub open spec fn complete_destroy_connection(self, code: ErrorCode) -> (SessionView, Result<
        (),
        RtcError,
    >) {
        if self.state is Uninitialized {
            (self, Err(RtcError::InvalidState))
        } else if self.state is Initialized {
            (self, Ok(()))
        } else if code == 0 {
            (SessionView { state: SessionState::Initialized, connection_id: None, ..self }, Ok(()))
        } else {
            (self, Err(RtcError::NativeError(code)))
        }
    }

    /// State after one deinitialize operation whose native call (made only
    /// when initialized) returned `code`, and the result the session
    /// reports for it. From `Uninitialized` it is a successful no-op; a
    /// live connection must be destroyed first.
    pub open spec fn complete_deinitialize(self, code: ErrorCode) -> (SessionView, Result<
        (),
        RtcError,
    >) {
        if self.state is Uninitialized {
            (self, Ok(()))
        } else if !(self.state is Initialized) {
            (self, Err(RtcError::InvalidState))
        } else if code == 0 {
            (SessionView { state: SessionState::Uninitialized, ..self }, Ok(()))
        } else {
            (self, Err(RtcError::NativeError(code)))
        }
    }

    /// The native calls teardown owes from this state: leave when joined,
    /// destroy when a connection exists, deinitialize unless already
    /// uninitialized.
    pub open spec fn teardown_plan(self) -> TeardownPlan {
        TeardownPlan {
            leave: if self.state is Joined {
                self.connection_id
            } else {
                None
            },
            destroy: self.connection_id,
            deinitialize: !(self.state is Uninitialized),
        }
    }

    /// State after a native create-connection returning `code` with the
    /// fresh identifier `connection_id`, and the result the session
    /// reports for it.
    pub open spec fn complete_create_connection(self, code: ErrorCode, connection_id: u32) -> (
        SessionView,
        Result<u32, RtcError>,
    ) {
        if !(self.state is Initialized) {
            (self, Err(RtcError::InvalidState))
        } else if code == 0 {
            (
                SessionView {
                    state: SessionState::ConnectionCreated,
                    connection_id: Some(connection_id),
                    ..self
                },
                Ok(connection_id),
            )
        } else {
            (self, Err(RtcError::NativeError(code)))
        }
    }
}

/// Everything one native initialize call needs, fully marshaled.
#[derive(Clone, Debug)]
pub struct InitializeCall {
    /// Application identifier, null-terminated.
    pub app_id: Vec<u8>,
    /// Geographic area selector.
    pub area_code: u32,
    /// Product identifier, zero-padded to [`PRODUCT_ID_CAPACITY`] bytes.
    pub product_id: Vec<u8>,
    /// License payload, zero-padded to [`LICENSE_CAPACITY`] bytes.
    pub license: Vec<u8>,
    /// Disables native logging.
    pub log_disable: bool,
    /// Redacts sensitive values from native logs.
    pub log_redact: bool,
    /// Native encoding of the severity threshold.
    pub log_level: i32,
    /// Log directory path, null-terminated. The native library may retain
    /// the pointer it is given past the call, so the caller must keep this
    /// buffer alive until after deinitialization.
    pub log_path: Vec<u8>,
}

/// Everything one native join call needs, fully marshaled.
#[derive(Clone, Debug)]
pub struct JoinChannelCall {
    /// Connection the join is made on.
    pub connection_id: u32,
    /// Channel name, null-terminated; needed only for this one call.
    pub channel: Vec<u8>,
    /// Local user identifier.
    pub user_id: u32,
    /// Authentication token, null-terminated; needed only for this one
    /// call.
    pub token: Vec<u8>,
    /// Per-join configuration.
    pub options: ChannelOptions,
}

/// Everything one native send-video call needs besides the frame bytes
/// themselves, which the caller passes alongside.
#[derive(Clone, Copy, Debug, PartialEq, Eq, Structural)]
pub struct SendVideoCall {
    /// Connection the frame is sent on.
    pub connection_id: u32,
    /// Description of the frame.
    pub frame_info: VideoFrameInfo,
}

/// The single native leave call one leave operation makes, when it makes
/// one.
#[derive(Clone, Copy, Debug, PartialEq, Eq, Structural)]
pub struct LeaveChannelCall {
    /// Connection whose channel is left.
    pub connection_id: u32,
}

/// The native work one destroy-connection operation makes, when it makes
/// any.
#[derive(Clone, Copy, Debug, PartialEq, Eq, Structural)]
pub struct DestroyConnectionCall {
    /// Connection to destroy.
    pub connection_id: u32,
    /// True when the session was still joined: the caller leaves the
    /// channel on this connection first, then destroys it.
    pub leave_first: bool,
}

/// The native calls a teardown owes, in the order they are to be made:
/// leave, then destroy, then deinitialize. Failures of these calls are
/// logged by the caller and not propagated — cleanup always runs to
/// completion.
#[derive(Clone, Copy, Debug, PartialEq, Eq)]
pub struct TeardownPlan {
    /// Connection whose channel is to be left, if any.
    pub leave: Option<u32>,
    /// Connection to destroy, if any.
    pub destroy: Option<u32>,
    /// Whether the native library is to be deinitialized.
    pub deinitialize: bool,
}

/// Everything one native mute-local-audio call needs.
#[derive(Clone, Copy, Debug, PartialEq, Eq, Structural)]
pub struct MuteLocalAudioCall {
    /// Connection the mute applies to.
    pub connection_id: u32,
    /// Whether local audio is to be muted.
    pub mute: bool,
}

/// Which error `begin_join_channel` reports, in the order the checks are
/// made; `None` when the native call may proceed.
pub open spec fn spec_begin_join_error(v: SessionView, channel: Seq<u8>, token: Seq<u8>) -> Option<
    RtcError,
> {
    if !v.has_connection() {
        Some(RtcError::InvalidState)
    } else if channel.contains(0u8) {
        Some(RtcError::EncodingError)
    } else if token.contains(0u8) {
        Some(RtcError::EncodingError)
    } else {
        None
    }
}

/// Which error `begin_send_video` reports, in the order the checks are
/// made; `None` when the native call may proceed.
pub open spec fn spec_begin_send_video_error(v: SessionView, explicit: bool) -> Option<RtcError> {
    if !(v.state is Joined) {
        Some(RtcError::InvalidState)
    } else if !explicit && v.default_frame_info is None {
        Some(RtcError::NoDefaultConfigured)
    } else {
        None
    }
}

/// Which error `begin_initialize` reports, in the order the checks are
/// made; `None` when the native call may proceed.
pub open spec fn spec_begin_initialize_error(v: SessionView, options: ServiceOptions) -> Option<
    RtcError,
> {
    if !(v.state is Uninitialized) {
        Some(RtcError::InvalidState)
    } else if v.app_id.contains(0u8) {
        Some(RtcError::EncodingError)
    } else if encode_utf8(options.log_config.path@).contains(0u8) {
        Some(RtcError::EncodingError)
    } else if options.product_id@.len() > PRODUCT_ID_CAPACITY {
        Some(RtcError::CapacityExceeded)
    } else if options.license@.len() > LICENSE_CAPACITY {
        Some(RtcError::CapacityExceeded)
    } else {
        None
    }
}

/// A session: the exclusive owner of at most one native connection
/// identifier, mutated only through the state machine operations below.
#[derive(Clone, Debug)]
pub struct Session {
    state: SessionState,
    connection_id: Option<u32>,
    app_id: Vec<u8>,
    channel: Vec<u8>,
    token: Vec<u8>,
    user_id: u32,
    default_frame_info: Option<VideoFrameInfo>,
}

impl View for Session {
    type V = SessionView;

    closed spec fn view(&self) -> SessionView {
        SessionView {
            state: self.state,
            connection_id: self.connection_id,
            app_id: self.app_id@,
            channel: self.channel@,
            token: self.token@,
            user_id: self.user_id,
            default_frame_info: self.default_frame_info,
        }
    }
}

impl Session {
    /// A fresh session for the given application identifier: uninitialized,
    /// holding no native resources.
    pub fn new(app_id: &str) -> (s: Session)
        ensures
            s@ == (SessionView {
                state: SessionState::Uninitialized,
                connection_id: None,
                app_id: app_id.spec_bytes(),
                channel: Seq::<u8>::empty(),
                token: Seq::<u8>::empty(),
                user_id: 0,
                default_frame_info: None,
            }),
            s@.wf(),
    {
        let s = Session {
            state: SessionState::Uninitialized,
            connection_id: None,
            app_id: app_id.as_bytes_vec(),
            channel: Vec::new(),
            token: Vec::new(),
            user_id: 0,
            default_frame_info: None,
        };
        assert(s@ =~= (SessionView {
            state: SessionState::Uninitialized,
            connection_id: None,
            app_id: app_id.spec_bytes(),
            channel: Seq::<u8>::empty(),
            token: Seq::<u8>::empty(),
            user_id: 0,
            default_frame_info: None,
        }));
        s
    }

    /// Validates and marshals a native initialize call.
    ///
    /// Allowed only while uninitialized. The application identifier and the
    /// log path must encode without an embedded null byte, and the product
    /// identifier and license must fit their fixed native buffers; each
    /// violation is reported before any native call is made.
    pub fn begin_initialize(&self, options: &ServiceOptions) -> (r: Result<
        InitializeCall,
        RtcError,
    >)
        ensures
            r is Ok <==> spec_begin_initialize_error(self@, *options) is None,
            r matches Err(e) ==> Some(e) == spec_begin_initialize_error(self@, *options),
            r matches Ok(call) ==> ({
                &&& call.app_id@ == self@.app_id.push(0u8)
                &&& call.area_code == options.area_code
                &&& call.product_id@ == zero_padded(options.product_id@, PRODUCT_ID_CAPACITY as int)
                &&& call.license@ == zero_padded(options.license@, LICENSE_CAPACITY as int)
                &&& call.log_disable == options.log_config.disable
                &&& call.log_redact == options.log_config.redact
                &&& call.log_level == spec_log_level_code(options.log_config.level)
                &&& call.log_path@ == encode_utf8(options.log_config.path@).push(0u8)
            }),
    {
        match self.state {
            SessionState::Uninitialized => {},
            _ => {
                return Err(RtcError::InvalidState);
            },
        }
        let app_id = match encode_c_bytes(self.app_id.as_slice()) {
            Ok(b) => b,
            Err(e) => {
                return Err(e);
            },
        };
        let log_path = match encode_c_string(options.log_config.path.as_str()) {
            Ok(b) => b,
            Err(e) => {
                return Err(e);
            },
        };
        let product_id = match encode_fixed_buffer(
            options.product_id.as_slice(),
            PRODUCT_ID_CAPACITY,
        ) {
            Ok(b) => b,
            Err(e) => {
                return Err(e);
            },
        };
        let license = match encode_fixed_buffer(options.license.as_slice(), LICENSE_CAPACITY) {
            Ok(b) => b,
            Err(e) => {
                return Err(e);
            },
        };
        Ok(
            InitializeCall {
                app_id,
                area_code: options.area_code,
                product_id,
                license,
                log_disable: options.log_config.disable,
                log_redact: options.log_config.redact,
                log_level: log_level_code(options.log_config.level),
                log_path,
            },
        )
    }

    /// Commits the outcome of a native initialize: code zero moves the
    /// session to `Initialized`; any other code leaves it untouched and is
    /// returned verbatim, so the caller may assume no native resources were
    /// allocated.
    pub fn complete_initialize(&mut self, code: ErrorCode) -> (r: Result<(), RtcError>)
        ensures
            ({
                let (v, res) = old(self)@.complete_initialize(code);
                final(self)@ == v && r == res
            }),
    {
        match self.state {
            SessionState::Uninitialized => {
                if code == 0 {
                    self.state = SessionState::Initialized;
                    assert(self@ =~= (SessionView {
                        state: SessionState::Initialized,
                        ..old(self)@
                    }));
                    Ok(())
                } else {
                    Err(RtcError::NativeError(code))
                }
            },
            _ => Err(RtcError::InvalidState),
        }
    }

    /// Checks that a native create-connection call may be made: allowed
    /// exactly while `Initialized`, since a session owns at most one live
    /// connection at a time.
    pub fn begin_create_connection(&self) -> (r: Result<(), RtcError>)
        ensures
            r is Ok <==> self@.state is Initialized,
            r matches Err(e) ==> e == RtcError::InvalidState,
    {
        match self.state {
            SessionState::Initialized => Ok(()),
            _ => Err(RtcError::InvalidState),
        }
    }

    /// Commits the outcome of a native create-connection: code zero stores
    /// the identifier the native library allocated — whatever it is, with
    /// no relation to any earlier one — and moves to `ConnectionCreated`;
    /// any other code leaves the session untouched.
    pub fn complete_create_connection(&mut self, code: ErrorCode, connection_id: u32) -> (r: Result<
        u32,
        RtcError,
    >)
        ensures
            ({
                let (v, res) = old(self)@.complete_create_connection(code, connection_id);
                final(self)@ == v && r == res
            }),
    {
        match self.state {
            SessionState::Initialized => {
                if code == 0 {
                    self.state = SessionState::ConnectionCreated;
                    self.connection_id = Some(connection_id);
                    assert(self@ =~= (SessionView {
                        state: SessionState::ConnectionCreated,
                        connection_id: Some(connection_id),
                        ..old(self)@
                    }));
                    Ok(connection_id)
                } else {
                    Err(RtcError::NativeError(code))
                }
            },
            _ => Err(RtcError::InvalidState),
        }
    }

    /// Validates and marshals a native join call.
    ///
    /// Allowed while a connection identifier exists: from
    /// `ConnectionCreated` as a first join, from `Joined` as a rejoin with
    /// new parameters. The channel name and token must encode without an
    /// embedded null byte; a violation is reported before any native call
    /// is made. The encoded buffers are needed only for the one native
    /// call and are not retained past it.
    pub fn begin_join_channel(
        &self,
        channel: &str,
        user_id: u32,
        token: &str,
        options: &ChannelOptions,
    ) -> (r: Result<JoinChannelCall, RtcError>)
        requires
            self@.wf(),
        ensures
            r is Ok <==> spec_begin_join_error(
                self@,
                channel.spec_bytes(),
                token.spec_bytes(),
            ) is None,
            r matches Err(e) ==> Some(e) == spec_begin_join_error(
                self@,
                channel.spec_bytes(),
                token.spec_bytes(),
            ),
            r matches Ok(call) ==> ({
                &&& Some(call.connection_id) == self@.connection_id
                &&& call.channel@ == channel.spec_bytes().push(0u8)
                &&& call.user_id == user_id
                &&& call.token@ == token.spec_bytes().push(0u8)
                &&& call.options == *options
            }),
    {
        match self.state {
            SessionState::ConnectionCreated | SessionState::Joined => {},
            _ => {
                return Err(RtcError::InvalidState);
            },
        }
        let connection_id = match self.connection_id {
            Some(id) => id,
            None => vstd::pervasive::unreached(),
        };
        let channel_z = match encode_c_string(channel) {
            Ok(b) => b,
            Err(e) => {
                return Err(e);
            },
        };
        let token_z = match encode_c_string(token) {
            Ok(b) => b,
            Err(e) => {
                return Err(e);
            },
        };
        Ok(
            JoinChannelCall {
                connection_id,
                channel: channel_z,
                user_id,
                token: token_z,
                options: *options,
            },
        )
    }

    /// Commits the outcome of a native join made with these parameters:
    /// code zero records the channel name, user identifier and token for
    /// diagnostics and moves to `Joined`; any other code leaves the
    /// session untouched.
    pub fn complete_join_channel(
        &mut self,
        channel: &str,
        user_id: u32,
        token: &str,
        code: ErrorCode,
    ) -> (r: Result<(), RtcError>)
        requires
            !channel.spec_bytes().contains(0u8),
            !token.spec_bytes().contains(0u8),
        ensures
            ({
                let (v, res) = old(self)@.complete_join_channel(
                    channel.spec_bytes(),
                    user_id,
                    token.spec_bytes(),
                    code,
                );
                final(self)@ == v && r == res
            }),
    {
        match self.state {
            SessionState::ConnectionCreated | SessionState::Joined => {
                if code == 0 {
                    self.state = SessionState::Joined;
                    self.channel = channel.as_bytes_vec();
                    self.token = token.as_bytes_vec();
                    self.user_id = user_id;
                    assert(self@ =~= (SessionView {
                        state: SessionState::Joined,
                        channel: channel.spec_bytes(),
                        token: token.spec_bytes(),
                        user_id,
                        ..old(self)@
                    }));
                    Ok(())
                } else {
                    Err(RtcError::NativeError(code))
                }
            },
            _ => Err(RtcError::InvalidState),
        }
    }

    /// Validates a native send-video call and resolves the frame
    /// description.
    ///
    /// Allowed only while `Joined`; this is checked here rather than left
    /// to the native layer, whose behaviour when not joined is
    /// undocumented, so a forbidden send makes no native call at all. With
    /// no explicit description the session's default is used; holding
    /// none is an error. The caller passes the frame bytes alongside the
    /// returned payload.
    pub fn begin_send_video(&self, frame_info: Option<&VideoFrameInfo>) -> (r: Result<
        SendVideoCall,
        RtcError,
    >)
        requires
            self@.wf(),
        ensures
            r is Ok <==> spec_begin_send_video_error(self@, frame_info is Some) is None,
            r matches Err(e) ==> Some(e) == spec_begin_send_video_error(
                self@,
                frame_info is Some,
            ),
            r matches Ok(call) ==> ({
                &&& Some(call.connection_id) == self@.connection_id
                &&& (match frame_info {
                    Some(info) => call.frame_info == *info,
                    None => Some(call.frame_info) == self@.default_frame_info,
                })
            }),
    {
        match self.state {
            SessionState::Joined => {},
            _ => {
                return Err(RtcError::InvalidState);
            },
        }
        let connection_id = match self.connection_id {
            Some(id) => id,
            None => vstd::pervasive::unreached(),
        };
        let resolved = match frame_info {
            Some(info) => *info,
            None => match self.default_frame_info {
                Some(info) => info,
                None => {
                    return Err(RtcError::NoDefaultConfigured);
                },
            },
        };
        Ok(SendVideoCall { connection_id, frame_info: resolved })
    }

    /// Validates a native mute-local-audio call: allowed exactly while a
    /// connection identifier exists.
    pub fn begin_mute_local_audio(&self, mute: bool) -> (r: Result<MuteLocalAudioCall, RtcError>)
        requires
            self@.wf(),
        ensures
            r is Ok <==> self@.has_connection(),
            r matches Err(e) ==> e == RtcError::InvalidState,
            r matches Ok(call) ==> Some(call.connection_id) == self@.connection_id && call.mute
                == mute,
    {
        match self.state {
            SessionState::ConnectionCreated | SessionState::Joined => {},
            _ => {
                return Err(RtcError::InvalidState);
            },
        }
        let connection_id = match self.connection_id {
            Some(id) => id,
            None => vstd::pervasive::unreached(),
        };
        Ok(MuteLocalAudioCall { connection_id, mute })
    }

    /// Names the native leave call one leave operation makes: one on the
    /// held connection when the session is joined, none otherwise —
    /// leaving with nothing to leave succeeds without a native call
    /// rather than failing, so cleanup is never stuck on a wrong-order
    /// call.
    pub fn begin_leave_channel(&self) -> (r: Option<LeaveChannelCall>)
        requires
            self@.wf(),
        ensures
            r matches Some(call) ==> Some(call.connection_id) == self@.begin_leave_channel(),
            r is Some <==> self@.begin_leave_channel() is Some,
    {
        match self.state {
            SessionState::Joined => {},
            _ => {
                return None;
            },
        }
        match self.connection_id {
            Some(id) => Some(LeaveChannelCall { connection_id: id }),
            None => vstd::pervasive::unreached(),
        }
    }

    /// Commits one leave operation; `code` is what the native leave call
    /// returned, and is ignored when [`Self::begin_leave_channel`] named
    /// no call. The session always ends outside `Joined`: a native
    /// failure is reported through the returned code but never keeps the
    /// session joined (see [`SessionView::leave_channel`]), which makes
    /// leaving idempotent.
    pub fn complete_leave_channel(&mut self, code: ErrorCode) -> (r: Result<(), RtcError>)
        ensures
            ({
                let (v, res) = old(self)@.leave_channel(code);
                final(self)@ == v && r == res
            }),
    {
        match self.state {
            SessionState::Joined => {
                self.state = SessionState::ConnectionCreated;
                assert(self@ =~= (SessionView {
                    state: SessionState::ConnectionCreated,
                    ..old(self)@
                }));
                crate::errors::code_to_result(code)
            },
            _ => Ok(()),
        }
    }

    /// Names the native work one destroy-connection operation makes:
    /// destroying the held connection — leaving its channel first when
    /// still joined — or nothing from `Initialized`, where destroying is
    /// a tolerant no-op. While uninitialized there is no native library
    /// the identifier could belong to, so the call is forbidden.
    pub fn begin_destroy_connection(&self) -> (r: Result<Option<DestroyConnectionCall>, RtcError>)
        requires
            self@.wf(),
        ensures
            r is Err <==> self@.state is Uninitialized,
            r matches Err(e) ==> e == RtcError::InvalidState,
            r matches Ok(c) ==> (c is Some <==> self@.has_connection()),
            r matches Ok(c) ==> (c matches Some(call) ==> ({
                &&& Some(call.connection_id) == self@.connection_id
                &&& call.leave_first == self@.state is Joined
            })),
    {
        match self.state {
            SessionState::Uninitialized => Err(RtcError::InvalidState),
            SessionState::Initialized => Ok(None),
            SessionState::ConnectionCreated | SessionState::Joined => {
                let connection_id = match self.connection_id {
                    Some(id) => id,
                    None => vstd::pervasive::unreached(),
                };
                let leave_first = match self.state {
                    SessionState::Joined => true,
                    _ => false,
                };
                Ok(Some(DestroyConnectionCall { connection_id, leave_first }))
            },
        }
    }

    /// Commits one destroy-connection operation; `code` is what the
    /// native destroy call returned, and is ignored when
    /// [`Self::begin_destroy_connection`] named no call. Code zero
    /// releases the identifier and moves to `Initialized`; any other code
    /// leaves the session untouched.
    pub fn complete_destroy_connection(&mut self, code: ErrorCode) -> (r: Result<(), RtcError>)
        ensures
            ({
                let (v, res) = old(self)@.complete_destroy_connection(code);
                final(self)@ == v && r == res
            }),
    {
        match self.state {
            SessionState::Uninitialized => Err(RtcError::InvalidState),
            SessionState::Initialized => Ok(()),
            SessionState::ConnectionCreated | SessionState::Joined => {
                if code == 0 {
                    self.state = SessionState::Initialized;
                    self.connection_id = None;
                    assert(self@ =~= (SessionView {
                        state: SessionState::Initialized,
                        connection_id: None,
                        ..old(self)@
                    }));
                    Ok(())
                } else {
                    Err(RtcError::NativeError(code))
                }
            },
        }
    }

    /// Says whether one deinitialize operation makes the native
    /// deinitialize call: yes from `Initialized`, no from
    /// `Uninitialized`, where it is a tolerant no-op. A live connection
    /// must be destroyed first. Deinitialization is process-wide: the
    /// native library holds at most one active initialization, so
    /// concurrent sessions must serialize this externally.
    pub fn begin_deinitialize(&self) -> (r: Result<bool, RtcError>)
        ensures
            r is Ok <==> (self@.state is Uninitialized || self@.state is Initialized),
            r matches Err(e) ==> e == RtcError::InvalidState,
            r matches Ok(b) ==> (b <==> self@.state is Initialized),
    {
        match self.state {
            SessionState::Uninitialized => Ok(false),
            SessionState::Initialized => Ok(true),
            _ => Err(RtcError::InvalidState),
        }
    }

    /// Commits one deinitialize operation; `code` is what the native
    /// deinitialize call returned, and is ignored when
    /// [`Self::begin_deinitialize`] named no call. Code zero returns the
    /// session to `Uninitialized`; any other code leaves it untouched.
    pub fn complete_deinitialize(&mut self, code: ErrorCode) -> (r: Result<(), RtcError>)
        ensures
            ({
                let (v, res) = old(self)@.complete_deinitialize(code);
                final(self)@ == v && r == res
            }),
    {
        match self.state {
            SessionState::Uninitialized => Ok(()),
            SessionState::Initialized => {
                if code == 0 {
                    self.state = SessionState::Uninitialized;
                    assert(self@ =~= (SessionView {
                        state: SessionState::Uninitialized,
                        ..old(self)@
                    }));
                    Ok(())
                } else {
                    Err(RtcError::NativeError(code))
                }
            },
            _ => Err(RtcError::InvalidState),
        }
    }

    /// Tears the session down from any reachable state: it releases every
    /// held identifier at once and returns the native calls the caller
    /// still owes — leave when joined, then destroy when a connection
    /// existed, then deinitialize unless nothing was initialized.
    ///
    /// The session ends `Uninitialized` whatever those calls later
    /// return: their failures are to be logged, not propagated, so
    /// cleanup always runs to completion and native resources are never
    /// leaked by an early return elsewhere. This operation never fails.
    pub fn teardown(&mut self) -> (plan: TeardownPlan)
        ensures
            plan == old(self)@.teardown_plan(),
            final(self)@ == (SessionView {
                state: SessionState::Uninitialized,
                connection_id: None,
                ..old(self)@
            }),
            final(self)@.state is Uninitialized,
            old(self)@.wf() ==> final(self)@.wf(),
    {
        let leave = match self.state {
            SessionState::Joined => self.connection_id,
            _ => None,
        };
        let destroy = self.connection_id;
        let deinitialize = match self.state {
            SessionState::Uninitialized => false,
            _ => true,
        };
        self.state = SessionState::Uninitialized;
        self.connection_id = None;
        assert(self@ =~= (SessionView {
            state: SessionState::Uninitialized,
            connection_id: None,
            ..old(self)@
        }));
        TeardownPlan { leave, destroy, deinitialize }
    }

    /// Current lifecycle state.
    pub fn current_state(&self) -> (s: SessionState)
        ensures
            s == self@.state,
    {
        self.state
    }

    /// The held native connection identifier, if any.
    pub fn connection_id(&self) -> (r: Option<u32>)
        ensures
            r == self@.connection_id,
    {
        self.connection_id
    }

    /// Bytes of the channel name recorded by the last successful join.
    pub fn channel(&self) -> (r: &Vec<u8>)
        ensures
            r@ == self@.channel,
    {
        &self.channel
    }

    /// Bytes of the token recorded by the last successful join.
    pub fn token(&self) -> (r: &Vec<u8>)
        ensures
            r@ == self@.token,
    {
        &self.token
    }

    /// Local user identifier recorded by the last successful join.
    pub fn user_id(&self) -> (r: u32)
        ensures
            r == self@.user_id,
    {
        self.user_id
    }

    /// The frame description used by sends that do not name one, if any
    /// is set.
    pub fn default_frame_info(&self) -> (r: Option<VideoFrameInfo>)
        ensures
            r == self@.default_frame_info,
    {
        self.default_frame_info
    }

    /// Sets the frame description used by sends that do not name one.
    pub fn set_default_frame_info(&mut self, info: VideoFrameInfo)
        ensures
            final(self)@ == (SessionView {
                default_frame_info: Some(info),
                ..old(self)@
            }),
            old(self)@.wf() ==> final(self)@.wf(),
    {
        self.default_frame_info = Some(info);
        assert(self@ =~= (SessionView { default_frame_info: Some(info), ..old(self)@ }));
    }
}

/// Fresh connection identifiers are independent: after a connection is
/// created, destroyed, and another created, the session holds exactly the
/// identifier the native library allocated the second time. `first_id` and
/// `second_id` are arbitrary — nothing relates the second to the first, so
/// no caller may assume an identifier is reused (nor that it is not).
pub proof fn lemma_fresh_connection_identifier(v: SessionView, first_id: u32, second_id: u32)
    requires
        v.wf(),
        v.state is Initialized,
    ensures
        ({
            let (v1, r1) = v.complete_create_connection(0, first_id);
            let (v2, r2) = v1.complete_destroy_connection(0);
            let (v3, r3) = v2.complete_create_connection(0, second_id);
            &&& r1 == Ok::<u32, RtcError>(first_id)
            &&& r2 == Ok::<(), RtcError>(())
            &&& r3 == Ok::<u32, RtcError>(second_id)
            &&& v3.connection_id == Some(second_id)
            &&& v3.wf()
        }),
{
}

/// Leaving a channel is idempotent: from any reachable state, once one
/// leave operation has run — whatever its native call returned — a second
/// leave names no native call, changes nothing, and succeeds, exactly as a
/// no-op would. The second call can therefore never return a different
/// error than a no-op.
pub proof fn lemma_leave_channel_idempotent(v: SessionView, first_code: ErrorCode, second_code: ErrorCode)
    requires
        v.wf(),
    ensures
        ({
            let (v1, r1) = v.leave_channel(first_code);
            let (v2, r2) = v1.leave_channel(second_code);
            &&& v1.begin_leave_channel() is None
            &&& v2 == v1
            &&& r2 == Ok::<(), RtcError>(())
            &&& v1.wf()
        }),
{
}

} // verus!
