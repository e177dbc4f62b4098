use vstd::prelude::*;

use crate::surface::SurfaceSize;

verus! {

/// The side of the window, in pixels, where no size was asked for.
pub const DEFAULT_WINDOW_SIDE: u32 = 1080;

/// How a host is to be started: a model constructor, an optional update and
/// view callback, and the window's size and title where they were set.
pub struct AppBuilder<Mf, Uf, Vf> {
    model: Mf,
    update: Option<Uf>,
    view: Option<Vf>,
    window_size: Option<SurfaceSize>,
    title: Option<String>,
}

/// The model constructor, the update and view callbacks, the window size and
/// the title.
pub type AppBuilderView<Mf, Uf, Vf> = (Mf, Option<Uf>, Option<Vf>, Option<SurfaceSize>, Option<String>);

impl<Mf, Uf, Vf> AppBuilder<Mf, Uf, Vf> {
    /// Everything the builder holds.
    pub closed spec fn parts(&self) -> AppBuilderView<Mf, Uf, Vf> {
        (self.model, self.update, self.view, self.window_size, self.title)
    }

    /// A builder with the model constructor alone.
    pub fn app(model: Mf) -> (r: AppBuilder<Mf, Uf, Vf>)
        ensures
            r.parts() == (model, None::<Uf>, None::<Vf>, None::<SurfaceSize>, None::<String>),
    {
        AppBuilder { model, update: None, view: None, window_size: None, title: None }
    }

    /// Registers the update callback, run before each view.
    pub fn update(self, u: Uf) -> (r: AppBuilder<Mf, Uf, Vf>)
        ensures
            r.parts() == (self.parts().0, Some(u), self.parts().2, self.parts().3, self.parts().4),
    {
        AppBuilder {
            model: self.model,
            update: Some(u),
            view: self.view,
            window_size: self.window_size,
            title: self.title,
        }
    }

    /// Registers the view callback, which builds each frame.
    pub fn view(self, v: Vf) -> (r: AppBuilder<Mf, Uf, Vf>)
        ensures
            r.parts() == (self.parts().0, self.parts().1, Some(v), self.parts().3, self.parts().4),
    {
        AppBuilder {
            model: self.model,
            update: self.update,
            view: Some(v),
            window_size: self.window_size,
            title: self.title,
        }
    }

    /// Sets the window title.
    pub fn title(self, t: String) -> (r: AppBuilder<Mf, Uf, Vf>)
        ensures
            r.parts() == (self.parts().0, self.parts().1, self.parts().2, self.parts().3, Some(t)),
    {
        AppBuilder {
            model: self.model,
            update: self.update,
            view: self.view,
            window_size: self.window_size,
            title: Some(t),
        }
    }

    /// Sets the window size asked of the window system.
    pub fn window_size(&mut self, x: u32, y: u32)
        ensures
            final(self).parts() == (
                old(self).parts().0,
                old(self).parts().1,
                old(self).parts().2,
                Some(SurfaceSize { width: x, height: y }),
                old(self).parts().4,
            ),
    {
        self.window_size = Some(SurfaceSize::new(x, y));
    }

    /// The window size to ask for: the one set, else `DEFAULT_WINDOW_SIDE`
    /// square.
    pub fn requested_window_size(&self) -> (r: SurfaceSize)
        ensures
            r == match self.parts().3 {
                Some(s) => s,
                None => SurfaceSize { width: DEFAULT_WINDOW_SIDE, height: DEFAULT_WINDOW_SIDE },
            },
    {
        match self.window_size {
            Some(s) => s,
            None => SurfaceSize::new(DEFAULT_WINDOW_SIDE, DEFAULT_WINDOW_SIDE),
        }
    }

    /// Takes the builder apart for the host that runs it.
    pub fn into_parts(self) -> (r: AppBuilderView<Mf, Uf, Vf>)
        ensures
            r == self.parts(),
    {
        (self.model, self.update, self.view, self.window_size, self.title)
    }
}

} // verus!
