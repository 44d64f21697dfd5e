//! The tray resource, the store that owns the single live instance, and
//! the title update protocol with its rebuild fallback.
//!
//! The platform's answers — whether the in-place title update was
//! accepted and whether a replacement icon could be constructed — enter
//! the protocol as arguments, so every outcome the platform can produce
//! is covered by the contracts.

use vstd::prelude::*;
use vstd::string::StringExecFns;

use crate::menu::MenuEntryModel;
use crate::menu::MenuSpec;
use crate::menu::build_menu;
use crate::menu::standard_menu;

verus! {

/// The single OS-level tray icon: a stable id, the displayed title, the
/// hover tooltip, the attached menu, and whether an icon image is
/// attached (required everywhere but on the platform that permits a
/// title-only tray icon).
#[derive(Debug)]
pub struct TrayResource {
    pub id: String,
    pub title: String,
    pub tooltip: String,
    pub menu: MenuSpec,
    pub has_icon: bool,
}

/// Mathematical model of a tray resource.
pub ghost struct TrayModel {
    pub id: Seq<char>,
    pub title: Seq<char>,
    pub tooltip: Seq<char>,
    pub menu: Seq<MenuEntryModel>,
    pub has_icon: bool,
}

impl View for TrayResource {
    type V = TrayModel;

    open spec fn view(&self) -> TrayModel {
        TrayModel {
            id: self.id@,
            title: self.title@,
            tooltip: self.tooltip@,
            menu: self.menu@,
            has_icon: self.has_icon,
        }
    }
}

/// The process-wide slot holding at most one live tray resource. The
/// mutual exclusion around it belongs to the surrounding application;
/// the library sees the slot once access is exclusive.
pub struct TrayStateStore {
    pub tray_icon: Option<TrayResource>,
}

/// Mathematical model of the store.
pub ghost struct StoreModel {
    pub tray: Option<TrayModel>,
}

impl View for TrayStateStore {
    type V = StoreModel;

    open spec fn view(&self) -> StoreModel {
        StoreModel {
            tray: match self.tray_icon {
                Option::Some(t) => Option::Some(t@),
                Option::None => Option::None,
            },
        }
    }
}

/// The errors a caller of the controller can see.
#[derive(Clone, Copy, Debug, PartialEq, Eq, Structural)]
pub enum TrayError {
    /// Exclusive access to the store could not be obtained.
    LockAcquisitionFailure,
    /// The platform could not construct a menu or tray object.
    PlatformConstructionFailure,
}

impl TrayError {
    /// The textual form returned to the frontend.
    pub fn message(&self) -> (m: String)
        ensures
            *self is LockAcquisitionFailure ==> m@ == "lock failed"@,
            *self is PlatformConstructionFailure ==> m@ == "tray construction failed"@,
    {
        match self {
            TrayError::LockAcquisitionFailure => "lock failed".to_owned(),
            TrayError::PlatformConstructionFailure => "tray construction failed".to_owned(),
        }
    }
}

/// The fixed id every tray instance carries, stable across rebuilds.
pub open spec fn main_tray_id() -> Seq<char> {
    "main-tray"@
}

/// A well-formed tray resource carries the fixed id.
pub open spec fn tray_wf(t: TrayModel) -> bool {
    t.id == main_tray_id()
}

/// A well-formed store holds only well-formed resources.
pub open spec fn store_wf(s: StoreModel) -> bool {
    s.tray matches Option::Some(t) ==> tray_wf(t)
}

/// How many live tray resources the store holds.
pub open spec fn live_resources(s: StoreModel) -> nat {
    if s.tray is Some {
        1
    } else {
        0
    }
}

/// The resource installed by the rebuild fallback: fixed id, the
/// requested title, tooltip equal to the title, a fresh standard menu,
/// and no icon image attached.
pub open spec fn rebuilt_tray(title: Seq<char>) -> TrayModel {
    TrayModel {
        id: main_tray_id(),
        title: title,
        tooltip: title,
        menu: standard_menu(),
        has_icon: false,
    }
}

/// The store after one run of the title update protocol, given the
/// platform's answers: an empty store is left untouched; an accepted
/// in-place update changes the title alone; a rejected in-place update
/// followed by a successful rebuild installs a fresh resource; and a
/// failed rebuild leaves the store empty.
pub open spec fn update_title_transition(
    pre: StoreModel,
    title: Seq<char>,
    inplace_ok: bool,
    rebuild_ok: bool,
) -> StoreModel {
    match pre.tray {
        Option::None => pre,
        Option::Some(t) => if inplace_ok {
            StoreModel {
                tray: Option::Some(
                    TrayModel {
                        id: t.id,
                        title: title,
                        tooltip: t.tooltip,
                        menu: t.menu,
                        has_icon: t.has_icon,
                    },
                ),
            }
        } else if rebuild_ok {
            StoreModel { tray: Option::Some(rebuilt_tray(title)) }
        } else {
            StoreModel { tray: Option::None }
        },
    }
}

/// Whether one run of the protocol reports success: always on an empty
/// store (a silent no-op), and otherwise exactly when the in-place
/// update or the rebuild went through.
pub open spec fn update_title_succeeds(pre: StoreModel, inplace_ok: bool, rebuild_ok: bool) -> bool {
    pre.tray is None || inplace_ok || rebuild_ok
}

/// Constructs a tray resource: fixed id, the requested title, tooltip
/// equal to the title, the given menu. On the platform that permits a
/// title-only tray icon no image is attached; on every other platform a
/// missing icon image is a construction error.
pub fn build_tray(
    title: String,
    menu: MenuSpec,
    icon_available: bool,
    title_only_platform: bool,
) -> (r: Result<TrayResource, TrayError>)
    ensures
        r is Ok <==> (title_only_platform || icon_available),
        r matches Ok(t) ==> {
            &&& t@.id == main_tray_id()
            &&& t@.title == title@
            &&& t@.tooltip == title@
            &&& t@.menu == menu@
            &&& t@.has_icon == !title_only_platform
            &&& tray_wf(t@)
        },
        r matches Err(e) ==> e == TrayError::PlatformConstructionFailure,
{
    if !title_only_platform && !icon_available {
        return Err(TrayError::PlatformConstructionFailure);
    }
    let tooltip = title.clone();
    Ok(TrayResource {
        id: "main-tray".to_owned(),
        title: title,
        tooltip: tooltip,
        menu: menu,
        has_icon: !title_only_platform,
    })
}

impl TrayStateStore {
    /// The store at process start: empty.
    pub fn new() -> (s: Self)
        ensures
            s@.tray is None,
    {
        TrayStateStore { tray_icon: None }
    }

    /// Installs the tray resource built during application setup. The
    /// store is populated exactly once; afterwards only the rebuild
    /// path of the title update protocol replaces its contents.
    pub fn install(&mut self, t: TrayResource)
        requires
            old(self)@.tray is None,
        ensures
            final(self)@.tray == Option::Some(t@),
    {
        self.tray_icon = Some(t);
    }

    /// Whether a tray resource is currently live.
    pub fn has_tray(&self) -> (b: bool)
        ensures
            b == (self@.tray is Some),
    {
        self.tray_icon.is_some()
    }
}

/// The title update protocol. `inplace_ok` is the platform's answer to
/// the in-place title update, `rebuild_ok` its answer to constructing a
/// replacement icon; each is consulted only on the path that needs it.
/// On an empty store the call is a silent no-op. When the in-place
/// update is rejected, the old resource is dropped and a fresh one —
/// rebuilt menu, tooltip equal to the title — is installed; if that
/// construction also fails the store is left empty and the failure is
/// reported to the caller.
pub fn update_tray_title(
    store: &mut TrayStateStore,
    title: String,
    inplace_ok: bool,
    rebuild_ok: bool,
) -> (r: Result<(), TrayError>)
    ensures
        final(store)@ == update_title_transition(old(store)@, title@, inplace_ok, rebuild_ok),
        r is Ok <==> update_title_succeeds(old(store)@, inplace_ok, rebuild_ok),
        r matches Err(e) ==> e == TrayError::PlatformConstructionFailure,
{
    let cur = store.tray_icon.take();
    match cur {
        None => Ok(()),
        Some(mut t) => {
            if inplace_ok {
                t.title = title;
                store.tray_icon = Some(t);
                Ok(())
            } else if rebuild_ok {
                let menu = build_menu();
                let tooltip = title.clone();
                store.tray_icon = Some(TrayResource {
                    id: "main-tray".to_owned(),
                    title: title,
                    tooltip: tooltip,
                    menu: menu,
                    has_icon: false,
                });
                Ok(())
            } else {
                Err(TrayError::PlatformConstructionFailure)
            }
        },
    }
}

/// Single-instance invariant: the store holds at most one tray
/// resource, and no run of the title update protocol can leave more
/// than one live resource behind.
pub proof fn lemma_single_instance(
    pre: StoreModel,
    title: Seq<char>,
    inplace_ok: bool,
    rebuild_ok: bool,
)
    ensures
        live_resources(pre) <= 1,
        live_resources(update_title_transition(pre, title, inplace_ok, rebuild_ok)) <= 1,
{
}

/// The title update protocol preserves well-formedness of the store:
/// the in-place path keeps the fixed id, the rebuild path restores it.
pub proof fn lemma_update_preserves_wf(
    pre: StoreModel,
    title: Seq<char>,
    inplace_ok: bool,
    rebuild_ok: bool,
)
    requires
        store_wf(pre),
    ensures
        store_wf(update_title_transition(pre, title, inplace_ok, rebuild_ok)),
{
}

/// Idempotent title convergence: two successive successful updates to
/// the same title leave the store showing exactly that title, whichever
/// combination of in-place and rebuild paths the two calls took.
pub proof fn lemma_title_convergence(
    pre: StoreModel,
    title: Seq<char>,
    inplace1: bool,
    rebuild1: bool,
    inplace2: bool,
    rebuild2: bool,
)
    requires
        pre.tray is Some,
        update_title_succeeds(pre, inplace1, rebuild1),
        update_title_succeeds(
            update_title_transition(pre, title, inplace1, rebuild1),
            inplace2,
            rebuild2,
        ),
    ensures
        ({
            let mid = update_title_transition(pre, title, inplace1, rebuild1);
            let post = update_title_transition(mid, title, inplace2, rebuild2);
            &&& post.tray is Some
            &&& post.tray->Some_0.title == title
        }),
{
}

/// Fallback correctness: when the in-place update is rejected and the
/// rebuild succeeds, the store holds a brand-new resource whose title
/// and tooltip both equal the requested title, under the fixed id and
/// with a fresh standard menu.
pub proof fn lemma_fallback_rebuild(pre: StoreModel, title: Seq<char>)
    requires
        pre.tray is Some,
    ensures
        ({
            let post = update_title_transition(pre, title, false, true);
            &&& post.tray is Some
            &&& post.tray->Some_0 == rebuilt_tray(title)
            &&& post.tray->Some_0.title == title
            &&& post.tray->Some_0.tooltip == title
            &&& post.tray->Some_0.menu == standard_menu()
            &&& post.tray->Some_0.id == main_tray_id()
        }),
{
}

/// Tooltip asymmetry: a successful in-place update changes the title
/// alone; the tooltip keeps its previous value, whatever the platform
/// would have answered on the rebuild path.
pub proof fn lemma_tooltip_asymmetry(pre: StoreModel, title: Seq<char>, rebuild_ok: bool)
    requires
        pre.tray is Some,
    ensures
        ({
            let post = update_title_transition(pre, title, true, rebuild_ok);
            &&& post.tray is Some
            &&& post.tray->Some_0.title == title
            &&& post.tray->Some_0.tooltip == pre.tray->Some_0.tooltip
        }),
{
}

} // verus!
