//! The routes of the application and the page that each one shows.

use vstd::prelude::*;

verus! {

/// The top-level routes: `/`, `/app`, `/app/*`, `/servers`, `/servers/me`,
/// `/servers/*` and `/404`.
#[derive(Clone, Copy, Debug, PartialEq, Eq, Structural)]
pub enum AppRoute {
    Index,
    Landing,
    LandingExt,
    HomeRoot,
    Home,
    HomeExt,
    NotFound,
}

/// What a top-level route shows.
#[derive(Clone, Copy, Debug, PartialEq, Eq, Structural)]
pub enum AppPage {
    RedirectToLanding,
    Landing,
    RedirectToHome,
    Home,
    NotFound,
}

impl AppRoute {
    /// The page of a top-level route: the bare root and `/servers` redirect,
    /// the landing and home routes show their pages with or without a suffix.
    pub fn page(&self) -> (p: AppPage)
        ensures
            p == match *self {
                AppRoute::Index => AppPage::RedirectToLanding,
                AppRoute::Landing | AppRoute::LandingExt => AppPage::Landing,
                AppRoute::HomeRoot => AppPage::RedirectToHome,
                AppRoute::Home | AppRoute::HomeExt => AppPage::Home,
                AppRoute::NotFound => AppPage::NotFound,
            },
    {
        match self {
            AppRoute::Index => AppPage::RedirectToLanding,
            AppRoute::Landing | AppRoute::LandingExt => AppPage::Landing,
            AppRoute::HomeRoot => AppPage::RedirectToHome,
            AppRoute::Home | AppRoute::HomeExt => AppPage::Home,
            AppRoute::NotFound => AppPage::NotFound,
        }
    }
}

/// The routes of the home area: `/servers/me`, `/servers/me/*`,
/// `/servers/:server_id` and `/servers/:server_id/*`.
#[derive(Clone, Copy, Debug, PartialEq, Eq, Structural)]
pub enum HomeRoute {
    Me,
    MeExt,
    Server { server_id: i32 },
    ServerExt { server_id: i32 },
}

/// What a home route shows: the direct messages, or a server.
#[derive(Clone, Copy, Debug, PartialEq, Eq, Structural)]
pub enum HomePage {
    Me,
    Server(i32),
}

impl HomeRoute {
    pub fn page(&self) -> (p: HomePage)
        ensures
            p == match *self {
                HomeRoute::Me | HomeRoute::MeExt => HomePage::Me,
                HomeRoute::Server { server_id } | HomeRoute::ServerExt { server_id } => HomePage::Server(
                    server_id,
                ),
            },
    {
        match self {
            HomeRoute::Me | HomeRoute::MeExt => HomePage::Me,
            HomeRoute::Server { server_id } | HomeRoute::ServerExt { server_id } => HomePage::Server(
                *server_id,
            ),
        }
    }
}

/// The routes of the direct messages: `/servers/me`,
/// `/servers/me/:chat_id` and `/404`.
#[derive(Clone, Copy, Debug, PartialEq, Eq, Structural)]
pub enum MeRoute {
    Overview,
    ChatRoom { chat_id: i32 },
    NotFound,
}

/// What a route of the direct messages shows.
#[derive(Clone, Copy, Debug, PartialEq, Eq, Structural)]
pub enum MePage {
    Overview,
    ChatRoom(i32),
    RedirectToNotFound,
}

impl MeRoute {
    pub fn page(&self) -> (p: MePage)
        ensures
            p == match *self {
                MeRoute::Overview => MePage::Overview,
                MeRoute::ChatRoom { chat_id } => MePage::ChatRoom(chat_id),
                MeRoute::NotFound => MePage::RedirectToNotFound,
            },
    {
        match self {
            MeRoute::Overview => MePage::Overview,
            MeRoute::ChatRoom { chat_id } => MePage::ChatRoom(*chat_id),
            MeRoute::NotFound => MePage::RedirectToNotFound,
        }
    }
}

/// The routes of a server: `/servers/:server_id/:channel_id` and
/// `/servers/:server_id`.
#[derive(Clone, Copy, Debug, PartialEq, Eq, Structural)]
pub enum ServerRoute {
    Channel { server_id: i32, channel_id: i32 },
    Welcome { server_id: i32 },
}

/// What a route of a server shows.
#[derive(Clone, Copy, Debug, PartialEq, Eq, Structural)]
pub enum ServerPage {
    Channel,
    Welcome,
}

impl ServerRoute {
    pub fn page(&self) -> (p: ServerPage)
        ensures
            p == match *self {
                ServerRoute::Channel { .. } => ServerPage::Channel,
                ServerRoute::Welcome { .. } => ServerPage::Welcome,
            },
    {
        match self {
            ServerRoute::Channel { .. } => ServerPage::Channel,
            ServerRoute::Welcome { .. } => ServerPage::Welcome,
        }
    }
}

/// The routes of the landing area: `/app/login` and `/app/register`.
#[derive(Clone, Copy, Debug, PartialEq, Eq, Structural)]
pub enum LandingRoute {
    Login,
    Register,
}

/// Where the home area sends a visitor: a member who is not logged in goes
/// to the login page.
#[derive(Clone, Copy, Debug, PartialEq, Eq, Structural)]
pub enum HomeAccess {
    RedirectToLogin,
    Show,
}

/// What the home area shows a visitor.
pub fn home_access(logged_in: bool) -> (g: HomeAccess)
    ensures
        g == if logged_in {
            HomeAccess::Show
        } else {
            HomeAccess::RedirectToLogin
        },
{
    if !logged_in {
        HomeAccess::RedirectToLogin
    } else {
        HomeAccess::Show
    }
}

/// Where the landing area sends a visitor: a logged-in member goes on to the
/// friends overview.
#[derive(Clone, Copy, Debug, PartialEq, Eq, Structural)]
pub enum LandingAccess {
    RedirectToOverview,
    Show,
}

/// What the landing area shows a visitor.
pub fn landing_access(logged_in: bool) -> (g: LandingAccess)
    ensures
        g == if logged_in {
            LandingAccess::RedirectToOverview
        } else {
            LandingAccess::Show
        },
{
    if logged_in {
        LandingAccess::RedirectToOverview
    } else {
        LandingAccess::Show
    }
}


} // verus!
