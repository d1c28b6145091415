//! The settings of the application and the context that its views share.

use crate::frontend::RefresherState;
use crate::selection::StaticData;
use crate::settings::{AppMenu, Color, ColorTheme, ItemsView};
use crate::sort::PitouFileSort;
use crate::tabs::TabCtx;
use vstd::prelude::*;

verus! {

/// What the user has set. Zoom, the one setting that is no whole number, is
/// kept with the views.
#[derive(Clone, Copy, Debug, PartialEq, Eq, Structural)]
pub struct AppSettings {
    /// Refreshes in a quarter of a minute: from 1 to 60.
    pub refresh_rate: u8,
    pub show_extensions: bool,
    pub hide_system_files: bool,
    pub show_thumbnails: bool,
    pub items_view: ItemsView,
    pub show_parents: bool,
    pub items_sort: Option<PitouFileSort>,
}

impl AppSettings {
    pub fn default_refresh_rate() -> (r: u8)
        ensures
            r == 3,
    {
        3
    }

    /// The time from one refresh to the next in milliseconds: 15 seconds
    /// shared out over the refreshes, from 15000 at a rate of 1 down to 250
    /// at a rate of 60.
    pub fn refresh_rate_as_millis(&self) -> (r: u32)
        requires
            self.refresh_rate > 0,
        ensures
            r == 15000int / (self.refresh_rate as int),
    {
        15000 / self.refresh_rate as u32
    }
}

impl Default for AppSettings {
    fn default() -> (r: Self)
        ensures
            r == (AppSettings {
                refresh_rate: 3,
                show_extensions: true,
                hide_system_files: true,
                show_thumbnails: false,
                items_view: ItemsView::Rows,
                show_parents: false,
                items_sort: None,
            }),
    {
        Self {
            refresh_rate: Self::default_refresh_rate(),
            show_extensions: true,
            hide_system_files: true,
            show_thumbnails: false,
            items_view: ItemsView::Rows,
            show_parents: false,
            items_sort: None,
        }
    }
}

#[derive(Clone, Copy, Debug, PartialEq, Eq, Structural)]
pub struct GenCtx {
    pub app_width: i32,
    pub app_height: i32,
    pub color_theme: ColorTheme,
    pub app_settings: AppSettings,
}

impl Default for GenCtx {
    fn default() -> (r: Self)
        ensures
            r.app_width == 1366,
            r.app_height == 768,
            r.color_theme.background1 == Color(60, 60, 60, 255),
            r.color_theme.spare2 == Color(185, 210, 235, 255),
            r.app_settings.refresh_rate == 3,
            r.app_settings.items_view == ItemsView::Rows,
            r.app_settings.items_sort is None,
    {
        Self {
            app_width: 1366,
            app_height: 768,
            color_theme: ColorTheme::default_dark(),
            app_settings: AppSettings::default(),
        }
    }
}

/// What the views share: the settings, the tab that is shown, what does not
/// belong to a tab, and the wheel that tells them to refresh.
#[derive(Debug)]
pub struct ApplicationContext {
    pub gen_ctx: GenCtx,
    pub active_tab: TabCtx,
    pub static_data: StaticData,
    pub refresher_state: RefresherState,
}

impl ApplicationContext {
    pub fn new(gen_ctx: GenCtx, active_tab: TabCtx, static_data: StaticData) -> (r: Self)
        ensures
            r.gen_ctx == gen_ctx,
            r.active_tab == active_tab,
            r.static_data == static_data,
            r.refresher_state == (RefresherState { state: crate::frontend::State::State1 }),
    {
        Self { gen_ctx, active_tab, static_data, refresher_state: RefresherState::default() }
    }

    pub fn refresher_state(&self) -> (r: RefresherState)
        ensures
            r == self.refresher_state,
    {
        self.refresher_state
    }

    pub fn toggle_refresher_state(&mut self)
        ensures
            *final(self) == (ApplicationContext {
                refresher_state: RefresherState { state: old(self).refresher_state.state.following() },
                ..*old(self)
            }),
    {
        self.refresher_state.toggle_refresher_state()
    }

    pub fn current_menu(&self) -> (r: AppMenu)
        ensures
            r == self.active_tab.current_menu,
    {
        self.active_tab.current_menu
    }

    /// Whether a folder can be made here: in the explorer, in a folder that
    /// is not the list of drives.
    pub fn new_folder_able(&self) -> (r: bool)
        requires
            self.active_tab.wf(),
        ensures
            r == (self.active_tab.current_menu == AppMenu::Explorer
                && match self.active_tab.spec_current_dir() {
                Some(dir) => dir.path.len() > 0,
                None => false,
            }),
    {
        if !matches!(self.active_tab.current_menu, AppMenu::Explorer) {
            return false;
        }
        match &self.active_tab.folder_tracker {
            Some(tracker) => !tracker.items[tracker.idx].full_path_str().is_empty(),
            None => false,
        }
    }

    pub fn refresh_rate_as_millis(&self) -> (r: u32)
        requires
            self.gen_ctx.app_settings.refresh_rate > 0,
        ensures
            r == 15000int / (self.gen_ctx.app_settings.refresh_rate as int),
    {
        self.gen_ctx.app_settings.refresh_rate_as_millis()
    }

    pub fn update_color_theme(&mut self, new_theme: ColorTheme)
        ensures
            *final(self) == (ApplicationContext {
                gen_ctx: GenCtx { color_theme: new_theme, ..old(self).gen_ctx },
                ..*old(self)
            }),
    {
        self.gen_ctx.color_theme = new_theme;
    }

    /// Sets the refresh rate. A rate that is not from 1 to 60 is ignored.
    pub fn update_refresh_rate(&mut self, new_rate: u8)
        ensures
            *final(self) == if 1 <= new_rate <= 60 {
                ApplicationContext {
                    gen_ctx: GenCtx {
                        app_settings: AppSettings {
                            refresh_rate: new_rate,
                            ..old(self).gen_ctx.app_settings
                        },
                        ..old(self).gen_ctx
                    },
                    ..*old(self)
                }
            } else {
                *old(self)
            },
    {
        if new_rate < 1 || new_rate > 60 {
            return ;
        }
        self.gen_ctx.app_settings.refresh_rate = new_rate;
    }

    pub fn items_sort(&self) -> (r: Option<PitouFileSort>)
        ensures
            r == self.gen_ctx.app_settings.items_sort,
    {
        self.gen_ctx.app_settings.items_sort
    }

    pub fn hide_system_files(&self) -> (r: bool)
        ensures
            r == self.gen_ctx.app_settings.hide_system_files,
    {
        self.gen_ctx.app_settings.hide_system_files
    }

    pub fn color_theme(&self) -> (r: ColorTheme)
        ensures
            r == self.gen_ctx.color_theme,
    {
        self.gen_ctx.color_theme
    }

    pub fn show_extensions(&self) -> (r: bool)
        ensures
            r == self.gen_ctx.app_settings.show_extensions,
    {
        self.gen_ctx.app_settings.show_extensions
    }

    pub fn refresh_rate(&self) -> (r: u8)
        ensures
            r == self.gen_ctx.app_settings.refresh_rate,
    {
        self.gen_ctx.app_settings.refresh_rate
    }

    pub fn show_thumbnails(&self) -> (r: bool)
        ensures
            r == self.gen_ctx.app_settings.show_thumbnails,
    {
        self.gen_ctx.app_settings.show_thumbnails
    }

    pub fn items_view(&self) -> (r: ItemsView)
        ensures
            r == self.gen_ctx.app_settings.items_view,
    {
        self.gen_ctx.app_settings.items_view
    }

    pub fn show_parents(&self) -> (r: bool)
        ensures
            r == self.gen_ctx.app_settings.show_parents,
    {
        self.gen_ctx.app_settings.show_parents
    }

    pub fn update_hide_system_files(&mut self, hide_system_files: bool)
        ensures
            *final(self) == (ApplicationContext {
                gen_ctx: GenCtx {
                    app_settings: AppSettings {
                        hide_system_files,
                        ..old(self).gen_ctx.app_settings
                    },
                    ..old(self).gen_ctx
                },
                ..*old(self)
            }),
    {
        self.gen_ctx.app_settings.hide_system_files = hide_system_files;
    }

    pub fn update_items_sort(&mut self, sort: Option<PitouFileSort>)
        ensures
            *final(self) == (ApplicationContext {
                gen_ctx: GenCtx {
                    app_settings: AppSettings {
                        items_sort: sort,
                        ..old(self).gen_ctx.app_settings
                    },
                    ..old(self).gen_ctx
                },
                ..*old(self)
            }),
    {
        self.gen_ctx.app_settings.items_sort = sort;
    }

    pub fn update_show_extensions(&mut self, show_extensions: bool)
        ensures
            *final(self) == (ApplicationContext {
                gen_ctx: GenCtx {
                    app_settings: AppSettings {
                        show_extensions,
                        ..old(self).gen_ctx.app_settings
                    },
                    ..old(self).gen_ctx
                },
                ..*old(self)
            }),
    {
        self.gen_ctx.app_settings.show_extensions = show_extensions;
    }

    pub fn toggle_show_thumbnails(&mut self, new_val: bool)
        ensures
            *final(self) == (ApplicationContext {
                gen_ctx: GenCtx {
                    app_settings: AppSettings {
                        show_thumbnails: new_val,
                        ..old(self).gen_ctx.app_settings
                    },
                    ..old(self).gen_ctx
                },
                ..*old(self)
            }),
    {
        self.gen_ctx.app_settings.show_thumbnails = new_val;
    }

    pub fn toggle_show_parents(&mut self, new_val: bool)
        ensures
            *final(self) == (ApplicationContext {
                gen_ctx: GenCtx {
                    app_settings: AppSettings {
                        show_parents: new_val,
                        ..old(self).gen_ctx.app_settings
                    },
                    ..old(self).gen_ctx
                },
                ..*old(self)
            }),
    {
        self.gen_ctx.app_settings.show_parents = new_val;
    }

    pub fn update_items_view(&mut self, new_view: ItemsView)
        ensures
            *final(self) == (ApplicationContext {
                gen_ctx: GenCtx {
                    app_settings: AppSettings {
                        items_view: new_view,
                        ..old(self).gen_ctx.app_settings
                    },
                    ..old(self).gen_ctx
                },
                ..*old(self)
            }),
    {
        self.gen_ctx.app_settings.items_view = new_view;
    }
}

} // verus!
