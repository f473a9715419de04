//! Bringing up an instance, one native step at a time.
//!
//! The bootstrapper never calls the driver. It names the native work that is
//! due, takes the answer, and decides what follows: the next piece of work,
//! an application that owns the new instance, or the failure that ends the
//! attempt.

use vstd::prelude::*;
use crate::app::{App, AppView};
use crate::error::BootstrapError;
use crate::name::{
    physical_device_properties2_name, portability_enumeration_name, validation_layer_name,
    ExtensionName,
};
use crate::request::{
    planned, planned_request, portability_applies, InstanceRequest, RequestView,
    ENUMERATE_PORTABILITY,
};
use crate::version::Version;

verus! {

/// The native work that a bootstrapper waits for.
#[derive(Clone, Copy, Debug, PartialEq, Eq, Structural)]
pub enum BootstrapAction {
    /// Load the driver loader and its entry point.
    LoadLoader,
    /// Ask the loader for the version of the interface that it supports.
    QueryLoaderVersion,
    /// Ask the loader for the layers that are installed.
    EnumerateLayers,
    /// Create the instance from the pending request.
    CreateInstance,
}

/// An answer to native work.
#[derive(Debug)]
pub enum BootstrapEvent {
    /// The loader and its entry point are there.
    LoaderLoaded,
    /// The loader or its entry point could not be found.
    LoaderUnavailable,
    /// The loader supports this version.
    LoaderVersion(Version),
    /// These layers are installed.
    LayersEnumerated(Vec<ExtensionName>),
    /// The instance exists.
    InstanceCreated,
    /// The native call failed with this status code.
    NativeFailure(i32),
}

/// The mathematical content of a `BootstrapEvent`.
pub enum EventView {
    LoaderLoaded,
    LoaderUnavailable,
    LoaderVersion(Version),
    LayersEnumerated(Seq<Seq<u8>>),
    InstanceCreated,
    NativeFailure(i32),
}

impl View for BootstrapEvent {
    type V = EventView;

    open spec fn view(&self) -> EventView {
        match self {
            BootstrapEvent::LoaderLoaded => EventView::LoaderLoaded,
            BootstrapEvent::LoaderUnavailable => EventView::LoaderUnavailable,
            BootstrapEvent::LoaderVersion(version) => EventView::LoaderVersion(*version),
            BootstrapEvent::LayersEnumerated(layers) => EventView::LayersEnumerated(
                layers.deep_view(),
            ),
            BootstrapEvent::InstanceCreated => EventView::InstanceCreated,
            BootstrapEvent::NativeFailure(code) => EventView::NativeFailure(*code),
        }
    }
}

#[derive(Debug)]
enum Stage {
    AwaitingLoader,
    AwaitingVersion,
    AwaitingLayers { portability: bool },
    AwaitingInstance { request: InstanceRequest },
}

/// How far a bootstrapper has come.
pub enum StageView {
    /// The loader is being loaded.
    AwaitingLoader,
    /// The loader is there and is being asked for its version.
    AwaitingVersion,
    /// It is settled whether portability enumeration is switched on, and the
    /// loader is being asked for its layers.
    AwaitingLayers { portability: bool },
    /// The request is planned and the instance is being created from it.
    AwaitingInstance { request: RequestView },
}

impl View for Stage {
    type V = StageView;

    closed spec fn view(&self) -> StageView {
        match self {
            Stage::AwaitingLoader => StageView::AwaitingLoader,
            Stage::AwaitingVersion => StageView::AwaitingVersion,
            Stage::AwaitingLayers { portability } => StageView::AwaitingLayers {
                portability: *portability,
            },
            Stage::AwaitingInstance { request } => StageView::AwaitingInstance {
                request: request@,
            },
        }
    }
}

/// The mathematical content of an `InstanceBootstrapper`.
pub struct BootstrapperView {
    /// The extensions that the window system needs.
    pub required: Seq<Seq<u8>>,
    /// Whether the validation layer is asked for.
    pub diagnostics: bool,
    /// Whether the platform shows its devices only to portability
    /// enumeration.
    pub portability_platform: bool,
    /// How far the attempt has come.
    pub stage: StageView,
}

impl BootstrapperView {
    /// A bootstrapper that has not begun.
    pub open spec fn start(
        required: Seq<Seq<u8>>,
        diagnostics: bool,
        portability_platform: bool,
    ) -> BootstrapperView {
        BootstrapperView {
            required,
            diagnostics,
            portability_platform,
            stage: StageView::AwaitingLoader,
        }
    }

    /// The same bootstrapper at another stage.
    pub open spec fn at(self, stage: StageView) -> BootstrapperView {
        BootstrapperView { stage, ..self }
    }

    /// What every bootstrapper satisfies: the loader's version is asked for
    /// only on a portability platform, portability enumeration is switched
    /// on only there, and a pending request is the one planned for what the
    /// bootstrapper was given.
    pub open spec fn wf(self) -> bool {
        match self.stage {
            StageView::AwaitingLoader => true,
            StageView::AwaitingVersion => self.portability_platform,
            StageView::AwaitingLayers { portability } => portability ==> self.portability_platform,
            StageView::AwaitingInstance { request } => {
                ||| request == planned_request(self.required, false, self.diagnostics)
                ||| self.portability_platform && request == planned_request(
                    self.required,
                    true,
                    self.diagnostics,
                )
            },
        }
    }

    /// The native work that is due.
    pub open spec fn action(self) -> BootstrapAction {
        match self.stage {
            StageView::AwaitingLoader => BootstrapAction::LoadLoader,
            StageView::AwaitingVersion => BootstrapAction::QueryLoaderVersion,
            StageView::AwaitingLayers { .. } => BootstrapAction::EnumerateLayers,
            StageView::AwaitingInstance { .. } => BootstrapAction::CreateInstance,
        }
    }

    /// What follows an answer.
    ///
    /// A missing loader, and a loader that fails to tell its version or its
    /// layers, end the attempt with `LoaderError`. The version is asked for
    /// on a portability platform only. Once the layers are known the request
    /// is planned, which fails with `MissingValidationLayer` where the
    /// validation layer is wanted and not installed; otherwise the instance
    /// is created from the request. A status code from creation ends the
    /// attempt with `InstanceCreationError`. An answer to work that is not
    /// due changes nothing.
    pub open spec fn step(self, event: EventView) -> BootstrapView {
        match (self.stage, event) {
            (StageView::AwaitingLoader, EventView::LoaderLoaded) => {
                if self.portability_platform {
                    BootstrapView::Pending(self.at(StageView::AwaitingVersion))
                } else {
                    BootstrapView::Pending(
                        self.at(StageView::AwaitingLayers { portability: false }),
                    )
                }
            },
            (StageView::AwaitingLoader, EventView::LoaderUnavailable) => {
                BootstrapView::Failed(BootstrapError::LoaderError)
            },
            (StageView::AwaitingVersion, EventView::LoaderVersion(version)) => {
                let portability = portability_applies(self.portability_platform, version);
                BootstrapView::Pending(self.at(StageView::AwaitingLayers { portability }))
            },
            (StageView::AwaitingVersion, EventView::NativeFailure(_)) => {
                BootstrapView::Failed(BootstrapError::LoaderError)
            },
            (StageView::AwaitingLayers { portability }, EventView::LayersEnumerated(available)) => {
                match planned(self.required, portability, self.diagnostics, available) {
                    Ok(request) => BootstrapView::Pending(
                        self.at(StageView::AwaitingInstance { request }),
                    ),
                    Err(error) => BootstrapView::Failed(error),
                }
            },
            (StageView::AwaitingLayers { .. }, EventView::NativeFailure(_)) => {
                BootstrapView::Failed(BootstrapError::LoaderError)
            },
            (StageView::AwaitingInstance { request }, EventView::InstanceCreated) => {
                BootstrapView::Ready(AppView::created(request))
            },
            (StageView::AwaitingInstance { .. }, EventView::NativeFailure(code)) => {
                BootstrapView::Failed(BootstrapError::InstanceCreationError(code))
            },
            _ => BootstrapView::Pending(self),
        }
    }
}

/// What an attempt to bring up an instance has come to.
#[derive(Debug)]
pub enum Bootstrap {
    /// Native work is due.
    Pending(InstanceBootstrapper),
    /// The instance exists, and this application owns it.
    Ready(App),
    /// The attempt is over and there is no instance.
    Failed(BootstrapError),
}

/// The mathematical content of a `Bootstrap`.
pub enum BootstrapView {
    Pending(BootstrapperView),
    Ready(AppView),
    Failed(BootstrapError),
}

impl View for Bootstrap {
    type V = BootstrapView;

    open spec fn view(&self) -> BootstrapView {
        match self {
            Bootstrap::Pending(bootstrapper) => BootstrapView::Pending(bootstrapper@),
            Bootstrap::Ready(app) => BootstrapView::Ready(app@),
            Bootstrap::Failed(error) => BootstrapView::Failed(*error),
        }
    }
}

/// An attempt that waits for native work.
#[derive(Debug)]
pub struct InstanceBootstrapper {
    required: Vec<ExtensionName>,
    diagnostics: bool,
    portability_platform: bool,
    stage: Stage,
}

impl View for InstanceBootstrapper {
    type V = BootstrapperView;

    closed spec fn view(&self) -> BootstrapperView {
        BootstrapperView {
            required: self.required.deep_view(),
            diagnostics: self.diagnostics,
            portability_platform: self.portability_platform,
            stage: self.stage@,
        }
    }
}

impl InstanceBootstrapper {
    #[verifier::type_invariant]
    spec fn well_formed(self) -> bool {
        self@.wf()
    }

    /// Begins an attempt for a window system that needs the extensions
    /// `required`. The first work due is to load the loader.
    pub fn new(
        required: Vec<ExtensionName>,
        diagnostics_enabled: bool,
        portability_platform: bool,
    ) -> (bootstrapper: InstanceBootstrapper)
        ensures
            bootstrapper@ == BootstrapperView::start(
                required.deep_view(),
                diagnostics_enabled,
                portability_platform,
            ),
    {
        InstanceBootstrapper {
            required,
            diagnostics: diagnostics_enabled,
            portability_platform,
            stage: Stage::AwaitingLoader,
        }
    }

    /// The native work that is due.
    pub fn action(&self) -> (action: BootstrapAction)
        ensures
            action == self@.action(),
            self@.wf(),
    {
        proof {
            use_type_invariant(self);
        }
        match &self.stage {
            Stage::AwaitingLoader => BootstrapAction::LoadLoader,
            Stage::AwaitingVersion => BootstrapAction::QueryLoaderVersion,
            Stage::AwaitingLayers { .. } => BootstrapAction::EnumerateLayers,
            Stage::AwaitingInstance { .. } => BootstrapAction::CreateInstance,
        }
    }

    /// The request to create the instance from, while that is the work due.
    pub fn request(&self) -> (pending: Option<&InstanceRequest>)
        ensures
            match pending {
                Some(request) => self@.stage == (StageView::AwaitingInstance {
                    request: request@,
                }),
                None => !(self@.stage is AwaitingInstance),
            },
            self@.wf(),
    {
        proof {
            use_type_invariant(self);
        }
        match &self.stage {
            Stage::AwaitingInstance { request } => Some(request),
            _ => None,
        }
    }

    /// Takes the answer to the work that was due and says what follows.
    pub fn step(self, event: BootstrapEvent) -> (next: Bootstrap)
        ensures
            next@ == self@.step(event@),
    {
        proof {
            use_type_invariant(&self);
        }
        let InstanceBootstrapper { required, diagnostics, portability_platform, stage } = self;
        match (stage, event) {
            (Stage::AwaitingLoader, BootstrapEvent::LoaderLoaded) => {
                let stage = if portability_platform {
                    Stage::AwaitingVersion
                } else {
                    Stage::AwaitingLayers { portability: false }
                };
                Bootstrap::Pending(
                    InstanceBootstrapper { required, diagnostics, portability_platform, stage },
                )
            },
            (Stage::AwaitingLoader, BootstrapEvent::LoaderUnavailable) => {
                Bootstrap::Failed(BootstrapError::LoaderError)
            },
            (Stage::AwaitingVersion, BootstrapEvent::LoaderVersion(version)) => {
                let portability = InstanceRequest::portability(portability_platform, version);
                let stage = Stage::AwaitingLayers { portability };
                Bootstrap::Pending(
                    InstanceBootstrapper { required, diagnostics, portability_platform, stage },
                )
            },
            (Stage::AwaitingVersion, BootstrapEvent::NativeFailure(_)) => {
                Bootstrap::Failed(BootstrapError::LoaderError)
            },
            (Stage::AwaitingLayers { portability }, BootstrapEvent::LayersEnumerated(available)) => {
                match InstanceRequest::plan(&required, portability, diagnostics, &available) {
                    Ok(request) => {
                        let stage = Stage::AwaitingInstance { request };
                        Bootstrap::Pending(
                            InstanceBootstrapper {
                                required,
                                diagnostics,
                                portability_platform,
                                stage,
                            },
                        )
                    },
                    Err(error) => Bootstrap::Failed(error),
                }
            },
            (Stage::AwaitingLayers { .. }, BootstrapEvent::NativeFailure(_)) => {
                Bootstrap::Failed(BootstrapError::LoaderError)
            },
            (Stage::AwaitingInstance { request }, BootstrapEvent::InstanceCreated) => {
                Bootstrap::Ready(App::new(request))
            },
            (Stage::AwaitingInstance { .. }, BootstrapEvent::NativeFailure(code)) => {
                Bootstrap::Failed(BootstrapError::InstanceCreationError(code))
            },
            (stage, _) => Bootstrap::Pending(
                InstanceBootstrapper { required, diagnostics, portability_platform, stage },
            ),
        }
    }
}

impl BootstrapView {
    /// An attempt that has not begun.
    pub open spec fn begin(
        required: Seq<Seq<u8>>,
        diagnostics: bool,
        portability_platform: bool,
    ) -> BootstrapView {
        BootstrapView::Pending(BootstrapperView::start(required, diagnostics, portability_platform))
    }

    /// What an attempt has come to after one more answer. An attempt that is
    /// over stays as it is.
    pub open spec fn advance(self, event: EventView) -> BootstrapView {
        match self {
            BootstrapView::Pending(bootstrapper) => bootstrapper.step(event),
            _ => self,
        }
    }

    /// What an attempt has come to after the answers `events`, in their
    /// order.
    pub open spec fn run(self, events: Seq<EventView>) -> BootstrapView
        decreases events.len(),
    {
        if events.len() == 0 {
            self
        } else {
            self.run(events.drop_last()).advance(events.last())
        }
    }

    /// Whether no instance exists and none is about to be created.
    pub open spec fn without_instance(self) -> bool {
        match self {
            BootstrapView::Pending(bootstrapper) => {
                bootstrapper.action() != BootstrapAction::CreateInstance
            },
            BootstrapView::Ready(_) => false,
            BootstrapView::Failed(_) => true,
        }
    }

    /// The request that an instance is about to be created from, or was
    /// created from.
    pub open spec fn request(self) -> Option<RequestView> {
        match self {
            BootstrapView::Pending(bootstrapper) => match bootstrapper.stage {
                StageView::AwaitingInstance { request } => Some(request),
                _ => None,
            },
            BootstrapView::Ready(app) => Some(app.request),
            BootstrapView::Failed(_) => None,
        }
    }

    /// Whether the attempt can have begun for a window system that needs
    /// `required`: it still knows what it was given, and the request that an
    /// instance is or was created from is the one planned for it.
    pub open spec fn begun_with(
        self,
        required: Seq<Seq<u8>>,
        diagnostics: bool,
        portability_platform: bool,
    ) -> bool {
        match self {
            BootstrapView::Pending(bootstrapper) => {
                &&& bootstrapper.wf()
                &&& bootstrapper.required == required
                &&& bootstrapper.diagnostics == diagnostics
                &&& bootstrapper.portability_platform == portability_platform
            },
            BootstrapView::Ready(app) => {
                &&& app.live()
                &&& BootstrapperView::start(required, diagnostics, portability_platform).at(
                    StageView::AwaitingInstance { request: app.request },
                ).wf()
            },
            BootstrapView::Failed(_) => true,
        }
    }
}

/// The answers of a platform on which every piece of native work succeeds:
/// the loader is there, it supports `version` where it is asked, `available`
/// are its layers, and the driver creates the instance.
pub open spec fn answers(
    portability_platform: bool,
    version: Version,
    available: Seq<Seq<u8>>,
) -> Seq<EventView> {
    if portability_platform {
        seq![
            EventView::LoaderLoaded,
            EventView::LoaderVersion(version),
            EventView::LayersEnumerated(available),
            EventView::InstanceCreated,
        ]
    } else {
        seq![
            EventView::LoaderLoaded,
            EventView::LayersEnumerated(available),
            EventView::InstanceCreated,
        ]
    }
}

/// Whether no answer among `events` lists the validation layer among the
/// installed layers.
pub open spec fn validation_layer_unseen(events: Seq<EventView>) -> bool {
    forall|i: int|
        0 <= i < events.len() ==> (#[trigger] events[i] matches EventView::LayersEnumerated(
            available,
        ) ==> !available.contains(validation_layer_name()))
}

/// Every outcome is final: an attempt that is over stays as it is, whatever
/// is answered afterwards. A failure is not retried, and an application that
/// owns its instance is not made again.
pub proof fn lemma_run_over(outcome: BootstrapView, events: Seq<EventView>)
    requires
        !(outcome is Pending),
    ensures
        outcome.run(events) == outcome,
    decreases events.len(),
{
    if events.len() > 0 {
        lemma_run_over(outcome, events.drop_last());
    }
}

/// Every state that an attempt can reach is well formed: whatever is
/// answered, and in whatever order, the attempt knows what it was given, and
/// a request that an instance is or was created from is the one planned for
/// it.
pub proof fn lemma_run_begun_with(
    required: Seq<Seq<u8>>,
    diagnostics: bool,
    portability_platform: bool,
    events: Seq<EventView>,
)
    ensures
        BootstrapView::begin(required, diagnostics, portability_platform).run(events).begun_with(
            required,
            diagnostics,
            portability_platform,
        ),
    decreases events.len(),
{
    if events.len() > 0 {
        lemma_run_begun_with(required, diagnostics, portability_platform, events.drop_last());
    }
}

/// Bringing up an instance follows the plan. On a platform whose native work
/// succeeds, an attempt ends with a running application that owns an instance
/// created from the planned request, or, where the validation layer is wanted
/// and not installed, with `MissingValidationLayer`. Portability enumeration
/// is planned for exactly where the platform needs it and the loader's
/// version reaches the threshold.
pub proof fn lemma_create_follows_plan(
    required: Seq<Seq<u8>>,
    diagnostics: bool,
    portability_platform: bool,
    version: Version,
    available: Seq<Seq<u8>>,
)
    ensures
        BootstrapView::begin(required, diagnostics, portability_platform).run(
            answers(portability_platform, version, available),
        ) == match planned(
            required,
            portability_applies(portability_platform, version),
            diagnostics,
            available,
        ) {
            Ok(request) => BootstrapView::Ready(AppView::created(request)),
            Err(error) => BootstrapView::Failed(error),
        },
{
    let begin = BootstrapView::begin(required, diagnostics, portability_platform);
    let events = answers(portability_platform, version, available);
    let first = events.drop_last();
    let second = first.drop_last();
    let third = second.drop_last();
    let layers = EventView::LayersEnumerated(available);
    if portability_platform {
        assert(begin.run(third.drop_last()) == begin);
        assert(begin.run(third) == begin.advance(EventView::LoaderLoaded));
        assert(begin.run(second) == begin.run(third).advance(EventView::LoaderVersion(version)));
        assert(begin.run(first) == begin.run(second).advance(layers));
        assert(begin.run(events) == begin.run(first).advance(EventView::InstanceCreated));
    } else {
        assert(begin.run(third) == begin);
        assert(begin.run(second) == begin.advance(EventView::LoaderLoaded));
        assert(begin.run(first) == begin.run(second).advance(layers));
        assert(begin.run(events) == begin.run(first).advance(EventView::InstanceCreated));
    }
}

/// With diagnostics on, no instance is created unless the validation layer is
/// installed: whatever is answered, and in whatever order, as long as no
/// answer lists the validation layer among the layers, no instance exists and
/// none is about to be created, and the attempt has not failed for any
/// reason but the loader or the missing layer.
pub proof fn lemma_no_instance_without_validation_layer(
    required: Seq<Seq<u8>>,
    portability_platform: bool,
    events: Seq<EventView>,
)
    requires
        validation_layer_unseen(events),
    ensures
        ({
            let end = BootstrapView::begin(required, true, portability_platform).run(events);
            &&& end.without_instance()
            &&& end matches BootstrapView::Failed(error) ==> error == BootstrapError::LoaderError
                || error == BootstrapError::MissingValidationLayer
        }),
    decreases events.len(),
{
    if events.len() > 0 {
        let earlier = events.drop_last();
        assert(validation_layer_unseen(earlier)) by {
            assert forall|i: int| 0 <= i < earlier.len() implies earlier[i] == events[i] by {}
        }
        lemma_no_instance_without_validation_layer(required, portability_platform, earlier);
        lemma_run_begun_with(required, true, portability_platform, earlier);
        assert(events.last() == events[events.len() - 1]);
    }
}

/// With diagnostics on and the validation layer not installed, bringing up an
/// instance ends with `MissingValidationLayer`, whatever the window system
/// needs, and at no point of the attempt is an instance created or about to
/// be created.
pub proof fn lemma_missing_validation_layer(
    required: Seq<Seq<u8>>,
    portability_platform: bool,
    version: Version,
    available: Seq<Seq<u8>>,
)
    requires
        !available.contains(validation_layer_name()),
    ensures
        ({
            let begin = BootstrapView::begin(required, true, portability_platform);
            let events = answers(portability_platform, version, available);
            &&& begin.run(events) == BootstrapView::Failed(BootstrapError::MissingValidationLayer)
            &&& forall|n: int|
                0 <= n <= events.len() ==> (#[trigger] begin.run(events.take(n))).without_instance()
        }),
{
    let begin = BootstrapView::begin(required, true, portability_platform);
    let events = answers(portability_platform, version, available);
    lemma_create_follows_plan(required, true, portability_platform, version, available);
    assert forall|n: int| 0 <= n <= events.len() implies (#[trigger] begin.run(
        events.take(n),
    )).without_instance() by {
        lemma_no_instance_without_validation_layer(required, portability_platform, events.take(n));
    }
}

/// With diagnostics off, no layer is passed to instance creation, whatever
/// layers are installed and whatever else is answered, and the attempt never
/// fails for a missing layer.
pub proof fn lemma_no_layers_without_diagnostics(
    required: Seq<Seq<u8>>,
    portability_platform: bool,
    events: Seq<EventView>,
)
    ensures
        ({
            let end = BootstrapView::begin(required, false, portability_platform).run(events);
            &&& end.request() matches Some(request) ==> request.layers == Seq::<Seq<u8>>::empty()
            &&& end != BootstrapView::Failed(BootstrapError::MissingValidationLayer)
        }),
    decreases events.len(),
{
    lemma_run_begun_with(required, false, portability_platform, events);
    if events.len() > 0 {
        lemma_no_layers_without_diagnostics(required, portability_platform, events.drop_last());
        lemma_run_begun_with(required, false, portability_platform, events.drop_last());
    }
}

/// The two portability extensions and the portability flag are added if and
/// only if the platform needs portability enumeration and the loader's
/// version is 1.3.216 or later. They follow the extensions that the window
/// system needs; otherwise the extensions are exactly those, and no flag is
/// set. This holds of the request that the instance is created from.
pub proof fn lemma_portability(
    required: Seq<Seq<u8>>,
    diagnostics: bool,
    portability_platform: bool,
    version: Version,
    available: Seq<Seq<u8>>,
)
    requires
        diagnostics ==> available.contains(validation_layer_name()),
    ensures
        ({
            let threshold = Version { major: 1, minor: 3, patch: 216 };
            let applies = portability_platform && version.spec_at_least(threshold);
            let end = BootstrapView::begin(required, diagnostics, portability_platform).run(
                answers(portability_platform, version, available),
            );
            &&& end matches BootstrapView::Ready(app)
            &&& applies ==> app.request.extensions == required + seq![
                physical_device_properties2_name(),
                portability_enumeration_name(),
            ]
            &&& applies ==> app.request.flags == ENUMERATE_PORTABILITY
            &&& !applies ==> app.request.extensions == required
            &&& !applies ==> app.request.flags == 0
            &&& applies <==> app.request.extensions != required
            &&& applies <==> app.request.flags != 0
        }),
{
    lemma_create_follows_plan(required, diagnostics, portability_platform, version, available);
    let portability = portability_applies(portability_platform, version);
    let request = planned_request(required, portability, diagnostics);
    if portability {
        assert(request.extensions =~= required + seq![
            physical_device_properties2_name(),
            portability_enumeration_name(),
        ]);
        assert(request.extensions.len() != required.len());
    }
}

/// An instance that exists has an owner: the answer that the instance was
/// created never ends in failure. Where creation was due it yields the
/// running application, whose instance can be released, and released once;
/// elsewhere it changes nothing.
pub proof fn lemma_created_instance_is_owned(bootstrapper: BootstrapperView)
    ensures
        match bootstrapper.step(EventView::InstanceCreated) {
            BootstrapView::Ready(app) => {
                &&& bootstrapper.action() == BootstrapAction::CreateInstance
                &&& app.live()
                &&& !app.destroyed().live()
            },
            BootstrapView::Pending(next) => {
                &&& bootstrapper.action() != BootstrapAction::CreateInstance
                &&& next == bootstrapper
            },
            BootstrapView::Failed(_) => false,
        },
{
}

} // verus!
