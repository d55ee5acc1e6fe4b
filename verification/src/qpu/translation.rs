//! Options for the translation of Quil programs by the QCS translation service.
//!
//! The options name one of two translation backends; the options of the second-generation
//! backend can only be set while no backend, or that backend, is chosen.
use vstd::prelude::*;

verus! {

/// The error returned when a specific Translation backend is expected to be set, but it is not.
#[derive(Debug, Clone, Copy, PartialEq, Eq, PartialOrd, Ord, Structural)]
pub enum TranslationBackendMismatch {
    /// Expected Translation backend V1 to be set, but got V2.
    V1,
    /// Expected Translation backend V2 to be set, but got V1.
    V2,
}

impl TranslationBackendMismatch {
    /// The message that describes the mismatch.
    pub fn to_string(&self) -> (message: String)
        ensures
            message@ == match self {
                TranslationBackendMismatch::V1 =>
                    "tried to set an option for Translation V1 using a different backend"@,
                TranslationBackendMismatch::V2 =>
                    "tried to set an option for Translation V2 using a different backend"@,
            },
    {
        match self {
            TranslationBackendMismatch::V1 => {
                "tried to set an option for Translation V1 using a different backend".to_owned()
            },
            TranslationBackendMismatch::V2 => {
                "tried to set an option for Translation V2 using a different backend".to_owned()
            },
        }
    }
}

/// Options of the first-generation translation backend, which has none.
#[derive(Debug, Clone, Copy, PartialEq, Eq, Default, Structural)]
pub struct BackendV1Options {}

/// Options of the second-generation translation backend; `None` leaves an option to the
/// service.
#[derive(Debug, Clone, Copy, PartialEq, Eq, Default, Structural)]
pub struct BackendV2Options {
    /// Whether default calibrations are prepended to the translated program.
    pub prepend_default_calibrations: Option<bool>,
    /// The passive reset delay in seconds, as the bits of an `f64`.
    pub passive_reset_delay_seconds: Option<u64>,
    /// Whether the backend may leave out runtime memory access checks.
    pub allow_unchecked_pointer_arithmetic: Option<bool>,
    /// Whether `DEFFRAME`s may differ from the Rigetti defaults.
    pub allow_frame_redefinition: Option<bool>,
    /// Whether all readout values are stored.
    pub store_all_readout_values: Option<bool>,
}

/// The translation backend to use, with its options.
#[derive(Debug, Clone, Copy, PartialEq, Eq, Structural)]
pub enum TranslationBackend {
    /// The first-generation backend, available on QCS since 2018.
    V1(BackendV1Options),
    /// The second-generation backend, available on QCS since 2023.
    V2(BackendV2Options),
}

/// Options for compiling the program through Q-CTRL's API before translation.
#[derive(Debug, Clone, Copy, PartialEq, Eq, Default, Structural)]
pub struct QCtrl {
    /// Whether the layout of the program is kept fixed.
    pub fixed_layout: Option<bool>,
}

/// The empty options of the second-generation backend.
pub open spec fn unset_v2_options() -> BackendV2Options {
    BackendV2Options {
        prepend_default_calibrations: None,
        passive_reset_delay_seconds: None,
        allow_unchecked_pointer_arithmetic: None,
        allow_frame_redefinition: None,
        store_all_readout_values: None,
    }
}

/// Options available for Quil program translation.
#[derive(Debug, Clone, Copy, PartialEq, Eq, Structural)]
pub struct TranslationOptions {
    translation_backend: Option<TranslationBackend>,
    q_ctrl: Option<QCtrl>,
}

impl Default for TranslationOptions {
    fn default() -> (options: Self)
        ensures
            options.spec_backend() is None,
            options.spec_q_ctrl() is None,
    {
        TranslationOptions { translation_backend: None, q_ctrl: None }
    }
}

/// The options of the second-generation backend that a backend choice holds: its own where it
/// is that backend, else none.
pub open spec fn v2_options_of(backend: Option<TranslationBackend>) -> BackendV2Options {
    match backend {
        Some(TranslationBackend::V2(options)) => options,
        _ => unset_v2_options(),
    }
}

impl TranslationOptions {
    /// The chosen backend and its options, if one is chosen.
    pub closed spec fn spec_backend(&self) -> Option<TranslationBackend> {
        self.translation_backend
    }

    /// The Q-CTRL options, if they are set.
    pub closed spec fn spec_q_ctrl(&self) -> Option<QCtrl> {
        self.q_ctrl
    }

    /// Get the backend used for translation
    pub fn backend(&self) -> (backend: Option<&TranslationBackend>)
        ensures
            match backend {
                Some(chosen) => self.spec_backend() == Some(*chosen),
                None => self.spec_backend() is None,
            },
    {
        self.translation_backend.as_ref()
    }

    /// Get the Q-CTRL options, if they are set.
    pub fn q_ctrl_options(&self) -> (q_ctrl: Option<QCtrl>)
        ensures
            q_ctrl == self.spec_q_ctrl(),
    {
        self.q_ctrl
    }

    /// Use the first-generation translation backend available on QCS since 2018.
    pub fn with_backend_v1(&mut self) -> (options: &mut BackendV1Options)
        ensures
            final(self).spec_backend() == Some(TranslationBackend::V1(*final(options))),
            final(self).spec_q_ctrl() == old(self).spec_q_ctrl(),
    {
        if !matches!(self.translation_backend, Some(TranslationBackend::V1(_))) {
            self.translation_backend = Some(TranslationBackend::V1(BackendV1Options {  }));
        }
        match &mut self.translation_backend {
            Some(TranslationBackend::V1(options)) => options,
            _ => vstd::pervasive::unreached(),
        }
    }

    /// Use the second-generation translation backend available on QCS since 2023. Its options
    /// are kept where it is already chosen, and start unset otherwise.
    pub fn with_backend_v2(&mut self) -> (options: &mut BackendV2Options)
        ensures
            *options == v2_options_of(old(self).spec_backend()),
            final(self).spec_backend() == Some(TranslationBackend::V2(*final(options))),
            final(self).spec_q_ctrl() == old(self).spec_q_ctrl(),
    {
        if !matches!(self.translation_backend, Some(TranslationBackend::V2(_))) {
            self.translation_backend = Some(
                TranslationBackend::V2(
                    BackendV2Options {
                        prepend_default_calibrations: None,
                        passive_reset_delay_seconds: None,
                        allow_unchecked_pointer_arithmetic: None,
                        allow_frame_redefinition: None,
                        store_all_readout_values: None,
                    },
                ),
            );
        }
        match &mut self.translation_backend {
            Some(TranslationBackend::V2(options)) => options,
            _ => vstd::pervasive::unreached(),
        }
    }

    /// Whether the backend choice lets options of the first-generation backend be set: no
    /// backend, or that one, is chosen.
    pub open spec fn admits_v1(&self) -> bool {
        !(self.spec_backend() matches Some(TranslationBackend::V2(_)))
    }

    /// Whether the backend choice lets options of the second-generation backend be set: no
    /// backend, or that one, is chosen.
    pub open spec fn admits_v2(&self) -> bool {
        !(self.spec_backend() matches Some(TranslationBackend::V1(_)))
    }

    /// The options of the first-generation backend, choosing that backend where no backend is
    /// chosen; an error where the other backend is.
    pub fn ensure_backend_v1(&mut self) -> (options: Result<
        &mut BackendV1Options,
        TranslationBackendMismatch,
    >)
        ensures
            options is Ok <==> old(self).admits_v1(),
            options is Err ==> options == Err::<&mut BackendV1Options, _>(
                TranslationBackendMismatch::V1,
            ) && *final(self) == *old(self),
            options is Ok ==> final(self).spec_backend() == Some(
                TranslationBackend::V1(*final(options->Ok_0)),
            ) && final(self).spec_q_ctrl() == old(self).spec_q_ctrl(),
    {
        if matches!(self.translation_backend, None | Some(TranslationBackend::V1(_))) {
            Ok(self.with_backend_v1())
        } else {
            Err(TranslationBackendMismatch::V1)
        }
    }

    /// The options of the second-generation backend, choosing that backend where no backend is
    /// chosen; an error where the other backend is.
    pub fn ensure_backend_v2(&mut self) -> (options: Result<
        &mut BackendV2Options,
        TranslationBackendMismatch,
    >)
        ensures
            options is Ok <==> old(self).admits_v2(),
            options is Err ==> options == Err::<&mut BackendV2Options, _>(
                TranslationBackendMismatch::V2,
            ) && *final(self) == *old(self),
            options is Ok ==> *options->Ok_0 == v2_options_of(old(self).spec_backend())
                && final(self).spec_backend() == Some(
                TranslationBackend::V2(*final(options->Ok_0)),
            ) && final(self).spec_q_ctrl() == old(self).spec_q_ctrl(),
    {
        if matches!(self.translation_backend, None | Some(TranslationBackend::V2(_))) {
            Ok(self.with_backend_v2())
        } else {
            Err(TranslationBackendMismatch::V2)
        }
    }

    /// Whether setting one option of the second-generation backend took `old` to `new`: the
    /// backend is then chosen with the options `options`, and the Q-CTRL options stay.
    pub open spec fn v2_set(old: TranslationOptions, new: TranslationOptions, options: BackendV2Options) -> bool {
        &&& new.spec_backend() == Some(TranslationBackend::V2(options))
        &&& new.spec_q_ctrl() == old.spec_q_ctrl()
    }

    /// If `false`, default calibrations will not be prepended to the translated program.
    ///
    /// # Errors
    ///
    /// This will return an error if the translation backend is set to something other than V2.
    pub fn v2_prepend_default_calibrations(&mut self, prepend: bool) -> (updated: Result<&mut Self, TranslationBackendMismatch>)
        ensures
            updated is Ok <==> old(self).admits_v2(),
            updated is Err ==> updated == Err::<&mut Self, _>(TranslationBackendMismatch::V2)
                && *final(self) == *old(self),
            updated is Ok ==> Self::v2_set(
                *old(self),
                *updated->Ok_0,
                BackendV2Options { prepend_default_calibrations: Some(prepend), ..v2_options_of(old(self).spec_backend()) },
            ) && *final(self) == *final(updated->Ok_0),
    {
        match self.ensure_backend_v2() {
            Ok(options) => {
                options.prepend_default_calibrations = Some(prepend);
            },
            Err(mismatch) => {
                return Err(mismatch);
            },
        }
        Ok(self)
    }

    /// Set a passive reset delay in seconds, given as the bits of an `f64`.
    ///
    /// # Errors
    ///
    /// This will return an error if the translation backend is set to something other than V2.
    pub fn v2_passive_reset_delay_seconds(&mut self, delay: u64) -> (updated: Result<&mut Self, TranslationBackendMismatch>)
        ensures
            updated is Ok <==> old(self).admits_v2(),
            updated is Err ==> updated == Err::<&mut Self, _>(TranslationBackendMismatch::V2)
                && *final(self) == *old(self),
            updated is Ok ==> Self::v2_set(
                *old(self),
                *updated->Ok_0,
                BackendV2Options { passive_reset_delay_seconds: Some(delay), ..v2_options_of(old(self).spec_backend()) },
            ) && *final(self) == *final(updated->Ok_0),
    {
        match self.ensure_backend_v2() {
            Ok(options) => {
                options.passive_reset_delay_seconds = Some(delay);
            },
            Err(mismatch) => {
                return Err(mismatch);
            },
        }
        Ok(self)
    }

    /// Request that the translation backend does not insert runtime memory access checks. Only
    /// available to certain users.
    ///
    /// # Errors
    ///
    /// This will return an error if the translation backend is set to something other than V2.
    pub fn v2_allow_unchecked_pointer_arithmetic(&mut self, allow: bool) -> (updated: Result<&mut Self, TranslationBackendMismatch>)
        ensures
            updated is Ok <==> old(self).admits_v2(),
            updated is Err ==> updated == Err::<&mut Self, _>(TranslationBackendMismatch::V2)
                && *final(self) == *old(self),
            updated is Ok ==> Self::v2_set(
                *old(self),
                *updated->Ok_0,
                BackendV2Options { allow_unchecked_pointer_arithmetic: Some(allow), ..v2_options_of(old(self).spec_backend()) },
            ) && *final(self) == *final(updated->Ok_0),
    {
        match self.ensure_backend_v2() {
            Ok(options) => {
                options.allow_unchecked_pointer_arithmetic = Some(allow);
            },
            Err(mismatch) => {
                return Err(mismatch);
            },
        }
        Ok(self)
    }

    /// Request that the translation backend allow `DEFFRAME`s differing from the Rigetti
    /// defaults. Only available to certain users. If disallowed, only `INITIAL-FREQUENCY` and/or
    /// `CHANNEL-DELAY` may differ.
    ///
    /// # Errors
    ///
    /// This will return an error if the translation backend is set to something other than V2.
    pub fn v2_allow_frame_redefinition(&mut self, allow: bool) -> (updated: Result<&mut Self, TranslationBackendMismatch>)
        ensures
            updated is Ok <==> old(self).admits_v2(),
            updated is Err ==> updated == Err::<&mut Self, _>(TranslationBackendMismatch::V2)
                && *final(self) == *old(self),
            updated is Ok ==> Self::v2_set(
                *old(self),
                *updated->Ok_0,
                BackendV2Options { allow_frame_redefinition: Some(allow), ..v2_options_of(old(self).spec_backend()) },
            ) && *final(self) == *final(updated->Ok_0),
    {
        match self.ensure_backend_v2() {
            Ok(options) => {
                options.allow_frame_redefinition = Some(allow);
            },
            Err(mismatch) => {
                return Err(mismatch);
            },
        }
        Ok(self)
    }

    /// Set the Q-CTRL option for compiling the program through Q-CTRL's API prior to translation.
    ///
    /// Generally, the client should set this option to `QCtrl::default()`, as options are
    /// specially authorized and not generally available to the client.
    pub fn q_ctrl(&mut self, q_ctrl: QCtrl) -> (updated: &mut Self)
        ensures
            updated.spec_q_ctrl() == Some(q_ctrl),
            updated.spec_backend() == old(self).spec_backend(),
            *final(self) == *final(updated),
    {
        self.q_ctrl = Some(q_ctrl);
        self
    }
}

} // verus!
