//! The two theme variants and the values they put into the appearance store.

use vstd::prelude::*;
use crate::refresh::refresh_plan;
use crate::refresh::refresh_windows;
use crate::refresh::Step;
use crate::regkey::after_writes;
use crate::regkey::lemma_two_writes;
use crate::regkey::StoreValue;
use crate::regkey::StoreWrite;

verus! {

/// The visible theme of the desktop.
#[derive(Debug, Clone, Copy, PartialEq, Eq, Structural)]
pub enum ThemeVariant {
    Dark,
    Light,
}

impl ThemeVariant {
    /// The other variant.
    pub open spec fn inverted(self) -> ThemeVariant {
        match self {
            ThemeVariant::Dark => ThemeVariant::Light,
            ThemeVariant::Light => ThemeVariant::Dark,
        }
    }

    /// The number that stands for the variant in the store: 0 for dark, 1
    /// for light.
    pub open spec fn light_flag(self) -> u32 {
        match self {
            ThemeVariant::Dark => 0,
            ThemeVariant::Light => 1,
        }
    }

    /// Gives the number that stands for the variant in the store.
    pub fn flag(self) -> (flag: u32)
        ensures
            flag == self.light_flag(),
    {
        match self {
            ThemeVariant::Dark => 0,
            ThemeVariant::Light => 1,
        }
    }

    /// Swaps dark and light.
    pub fn invert(self) -> (other: ThemeVariant)
        ensures
            other == self.inverted(),
            other != self,
    {
        match self {
            ThemeVariant::Dark => ThemeVariant::Light,
            ThemeVariant::Light => ThemeVariant::Dark,
        }
    }
}

/// The writes that apply a variant: both flags of the store get the number
/// of the variant, the applications' flag first.
pub open spec fn theme_writes(variant: ThemeVariant) -> Seq<StoreWrite> {
    seq![
        StoreWrite { value: StoreValue::AppsUseLightTheme, data: variant.light_flag() },
        StoreWrite { value: StoreValue::SystemUsesLightTheme, data: variant.light_flag() },
    ]
}

/// The steps that apply a variant, in their order: the two writes of the
/// flags, and after them the steps of a refresh.
pub open spec fn theme_plan(variant: ThemeVariant) -> Seq<Step> {
    seq![Step::Write(theme_writes(variant)[0]), Step::Write(theme_writes(variant)[1])]
        + refresh_plan()
}

/// Gives the whole plan of applying a variant. Both flags of the store are
/// written first, under the personalisation key; only then does the refresh
/// touch the accent colour and tell the windows. The driver goes through the
/// steps in this order, and stops where a step fails.
pub fn set_theme(variant: ThemeVariant) -> (plan: Vec<Step>)
    ensures
        plan@ == theme_plan(variant),
        plan@.len() == 7,
{
    let flag: u32 = variant.flag();
    let mut plan: Vec<Step> = vec![
        Step::Write(StoreWrite { value: StoreValue::AppsUseLightTheme, data: flag }),
        Step::Write(StoreWrite { value: StoreValue::SystemUsesLightTheme, data: flag }),
    ];
    let mut refresh = refresh_windows();
    plan.append(&mut refresh);
    plan
}

/// Inverting twice gives the variant back, and inverting once gives the
/// other one: dark becomes light and light becomes dark.
pub proof fn lemma_invert_is_an_involution(variant: ThemeVariant)
    ensures
        variant.inverted().inverted() == variant,
        variant.inverted() != variant,
        ThemeVariant::Dark.inverted() == ThemeVariant::Light,
        ThemeVariant::Light.inverted() == ThemeVariant::Dark,
{
}

/// Applying a variant puts its number into both flags and leaves every
/// other value of the store alone; applying it again changes nothing.
pub proof fn lemma_set_theme_is_idempotent(store: Map<StoreValue, u32>, variant: ThemeVariant)
    ensures
        after_writes(store, theme_writes(variant)) == store.insert(
            StoreValue::AppsUseLightTheme,
            variant.light_flag(),
        ).insert(StoreValue::SystemUsesLightTheme, variant.light_flag()),
        after_writes(after_writes(store, theme_writes(variant)), theme_writes(variant))
            == after_writes(store, theme_writes(variant)),
{
    lemma_two_writes(store, theme_writes(variant));
    let once = after_writes(store, theme_writes(variant));
    lemma_two_writes(once, theme_writes(variant));
    assert(after_writes(once, theme_writes(variant)) =~= once);
}

/// In the plan of applying a variant the two flags are written before
/// anything else happens: the accent colour is read and written, and the
/// windows are told, only after both writes. No later step writes a flag.
pub proof fn lemma_flags_are_written_first(variant: ThemeVariant)
    ensures
        ({
            let plan = theme_plan(variant);
            &&& plan.len() == 7
            &&& plan[0] == Step::Write(
                StoreWrite { value: StoreValue::AppsUseLightTheme, data: variant.light_flag() },
            )
            &&& plan[1] == Step::Write(
                StoreWrite { value: StoreValue::SystemUsesLightTheme, data: variant.light_flag() },
            )
            &&& plan.subrange(2, 7) == refresh_plan()
            &&& forall|i: int|
                0 <= i < plan.len() && (plan[i] is ReadAccent || plan[i] is WriteAccent
                    || plan[i] is Broadcast || plan[i] is Pause) ==> i >= 2
            &&& forall|i: int| 0 <= i < plan.len() && plan[i] is Write ==> i < 2
        }),
{
    let plan = theme_plan(variant);
    assert(plan.subrange(2, 7) =~= refresh_plan());
}

} // verus!
