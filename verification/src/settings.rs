//! Runs of setter calls on a widget, and which setting stands after one.
use vstd::prelude::*;
use crate::sizing::Sizing;
use crate::widget::Configuration;

verus! {

/// One call of a setter of the widget.
pub enum Setting {
    /// A call of `width`.
    Width(Sizing),
    /// A call of `height`.
    Height(Sizing),
    /// A call of `text_shaping`.
    Shaping(iced_core::text::Shaping),
}

impl Setting {
    /// The width that the call sets, if it sets one.
    pub open spec fn width(self) -> Option<Sizing> {
        match self {
            Setting::Width(width) => Some(width),
            _ => None,
        }
    }

    /// The height that the call sets, if it sets one.
    pub open spec fn height(self) -> Option<Sizing> {
        match self {
            Setting::Height(height) => Some(height),
            _ => None,
        }
    }

    /// The text shaping that the call sets, if it sets one.
    pub open spec fn shaping(self) -> Option<iced_core::text::Shaping> {
        match self {
            Setting::Shaping(shaping) => Some(shaping),
            _ => None,
        }
    }
}

impl<C> Configuration<C> {
    /// The configuration after one call of a setter.
    pub open spec fn set(self, setting: Setting) -> Self {
        match setting {
            Setting::Width(width) => self.with_width(width),
            Setting::Height(height) => self.with_height(height),
            Setting::Shaping(shaping) => self.with_shaping(shaping),
        }
    }

    /// The configuration after a run of setter calls, made in order.
    pub open spec fn set_all(self, settings: Seq<Setting>) -> Self
        decreases settings.len(),
    {
        if settings.len() == 0 {
            self
        } else {
            self.set_all(settings.drop_last()).set(settings.last())
        }
    }

    /// No run of setter calls touches the chart.
    pub proof fn lemma_chart_stays(self, settings: Seq<Setting>)
        ensures
            self.set_all(settings).chart == self.chart,
        decreases settings.len(),
    {
        if settings.len() > 0 {
            self.lemma_chart_stays(settings.drop_last());
        }
    }

    /// After a run of setter calls the width is the one of the last call that
    /// set a width.
    pub proof fn lemma_last_width_set_stands(self, settings: Seq<Setting>, at: int)
        requires
            0 <= at < settings.len(),
            settings[at].width() is Some,
            forall|later: int| at < later < settings.len() ==> settings[later].width() is None,
        ensures
            Some(self.set_all(settings).width) == settings[at].width(),
            Some(self.set_all(settings).dimensions().width) == settings[at].width(),
        decreases settings.len(),
    {
        let earlier = settings.drop_last();
        if at < settings.len() - 1 {
            assert(settings[settings.len() - 1].width() is None);
            assert forall|later: int| at < later < earlier.len() implies earlier[later].width()
                is None by {
                assert(earlier[later] == settings[later]);
            }
            self.lemma_last_width_set_stands(earlier, at);
        }
    }

    /// A run of setter calls of which none sets a width leaves the width as
    /// it was.
    pub proof fn lemma_width_stays_unless_set(self, settings: Seq<Setting>)
        requires
            forall|at: int| 0 <= at < settings.len() ==> settings[at].width() is None,
        ensures
            self.set_all(settings).width == self.width,
        decreases settings.len(),
    {
        if settings.len() > 0 {
            let earlier = settings.drop_last();
            assert(settings[settings.len() - 1].width() is None);
            assert forall|at: int| 0 <= at < earlier.len() implies earlier[at].width() is None by {
                assert(earlier[at] == settings[at]);
            }
            self.lemma_width_stays_unless_set(earlier);
        }
    }

    /// After a run of setter calls the height is the one of the last call
    /// that set a height.
    pub proof fn lemma_last_height_set_stands(self, settings: Seq<Setting>, at: int)
        requires
            0 <= at < settings.len(),
            settings[at].height() is Some,
            forall|later: int| at < later < settings.len() ==> settings[later].height() is None,
        ensures
            Some(self.set_all(settings).height) == settings[at].height(),
            Some(self.set_all(settings).dimensions().height) == settings[at].height(),
        decreases settings.len(),
    {
        let earlier = settings.drop_last();
        if at < settings.len() - 1 {
            assert(settings[settings.len() - 1].height() is None);
            assert forall|later: int| at < later < earlier.len() implies earlier[later].height()
                is None by {
                assert(earlier[later] == settings[later]);
            }
            self.lemma_last_height_set_stands(earlier, at);
        }
    }

    /// A run of setter calls of which none sets a height leaves the height
    /// as it was.
    pub proof fn lemma_height_stays_unless_set(self, settings: Seq<Setting>)
        requires
            forall|at: int| 0 <= at < settings.len() ==> settings[at].height() is None,
        ensures
            self.set_all(settings).height == self.height,
        decreases settings.len(),
    {
        if settings.len() > 0 {
            let earlier = settings.drop_last();
            assert(settings[settings.len() - 1].height() is None);
            assert forall|at: int| 0 <= at < earlier.len() implies earlier[at].height()
                is None by {
                assert(earlier[at] == settings[at]);
            }
            self.lemma_height_stays_unless_set(earlier);
        }
    }

    /// After a run of setter calls the text shaping is the one of the last
    /// call that set a shaping.
    pub proof fn lemma_last_shaping_set_stands(self, settings: Seq<Setting>, at: int)
        requires
            0 <= at < settings.len(),
            settings[at].shaping() is Some,
            forall|later: int| at < later < settings.len() ==> settings[later].shaping() is None,
        ensures
            Some(self.set_all(settings).shaping) == settings[at].shaping(),
        decreases settings.len(),
    {
        let earlier = settings.drop_last();
        if at < settings.len() - 1 {
            assert(settings[settings.len() - 1].shaping() is None);
            assert forall|later: int| at < later < earlier.len() implies earlier[later].shaping()
                is None by {
                assert(earlier[later] == settings[later]);
            }
            self.lemma_last_shaping_set_stands(earlier, at);
        }
    }

    /// A run of setter calls of which none sets a text shaping leaves the
    /// shaping as it was.
    pub proof fn lemma_shaping_stays_unless_set(self, settings: Seq<Setting>)
        requires
            forall|at: int| 0 <= at < settings.len() ==> settings[at].shaping() is None,
        ensures
            self.set_all(settings).shaping == self.shaping,
        decreases settings.len(),
    {
        if settings.len() > 0 {
            let earlier = settings.drop_last();
            assert(settings[settings.len() - 1].shaping() is None);
            assert forall|at: int| 0 <= at < earlier.len() implies earlier[at].shaping()
                is None by {
                assert(earlier[at] == settings[at]);
            }
            self.lemma_shaping_stays_unless_set(earlier);
        }
    }
}

} // verus!
