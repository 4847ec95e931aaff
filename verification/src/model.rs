//! The built-in catalogue of mock apps.
use vstd::prelude::*;
use std::rc::Rc;
use vstd::string::StringExecFns;

verus! {

/// The glyphs that the mock apps show.
#[derive(Clone, Copy, PartialEq, Eq, Structural, Debug)]
pub enum BuiltInAppIcon {
    LiveTv,
    Movies,
    Music,
    Photos,
    Browser,
    Settings,
    Store,
    Files,
    Games,
    News,
    Weather,
    Sports,
    Podcasts,
    Calendar,
    Mail,
    Camera,
    Terminal,
    Sleep,
    Search,
    Kids,
    Stream,
    Radio,
    Books,
    Fitness,
    Calls,
    Travel,
    Recipes,
    Security,
}

/// Where a mock app's icon comes from.
pub enum AppIcon {
    BuiltIn(BuiltInAppIcon),
    /// An icon file, by its path.
    File(String),
}

/// How a mock app is launched.
#[derive(Clone, Copy, PartialEq, Eq, Structural, Debug)]
pub enum AppLaunch {
    Mock,
}

/// A mock app as the catalogue lists it.
pub struct MockAppEntry {
    pub id: Rc<String>,
    pub name: Rc<String>,
    pub icon: AppIcon,
    pub launch: AppLaunch,
    pub accent: [u8; 3],
}

/// A shared copy of `text`.
pub fn app_text(text: &str) -> (shared: Rc<String>)
    ensures
        shared@ == text@,
{
    Rc::new(String::from_str(text))
}

/// The description of a mock app.
#[derive(Clone, Copy)]
pub struct MockAppSpec {
    pub id: &'static str,
    pub name: &'static str,
    pub icon: BuiltInAppIcon,
    pub accent: [u8; 3],
}

impl MockAppSpec {
    /// The catalogue entry of the mock app.
    pub fn to_entry(self) -> (entry: Rc<MockAppEntry>)
        ensures
            entry.id@ == self.id@,
            entry.name@ == self.name@,
            entry.icon == AppIcon::BuiltIn(self.icon),
            entry.launch == AppLaunch::Mock,
            entry.accent == self.accent,
    {
        Rc::new(
            MockAppEntry {
                id: app_text(self.id),
                name: app_text(self.name),
                icon: AppIcon::BuiltIn(self.icon),
                launch: AppLaunch::Mock,
                accent: self.accent,
            },
        )
    }
}

/// The mock apps, in catalogue order.
#[verifier::opaque]
pub open spec fn mock_catalogue() -> Seq<MockAppSpec> {
    seq![
        MockAppSpec { id: "live-tv", name: "Live TV", icon: BuiltInAppIcon::LiveTv, accent: [60, 133, 246] },
        MockAppSpec { id: "movies", name: "Movies", icon: BuiltInAppIcon::Movies, accent: [255, 110, 64] },
        MockAppSpec { id: "music", name: "Music", icon: BuiltInAppIcon::Music, accent: [76, 175, 80] },
        MockAppSpec { id: "photos", name: "Photos", icon: BuiltInAppIcon::Photos, accent: [255, 193, 7] },
        MockAppSpec { id: "browser", name: "Browser", icon: BuiltInAppIcon::Browser, accent: [0, 188, 212] },
        MockAppSpec { id: "settings", name: "Settings", icon: BuiltInAppIcon::Settings, accent: [171, 71, 188] },
        MockAppSpec { id: "store", name: "Store", icon: BuiltInAppIcon::Store, accent: [244, 67, 54] },
        MockAppSpec { id: "files", name: "Files", icon: BuiltInAppIcon::Files, accent: [121, 85, 72] },
        MockAppSpec { id: "games", name: "Games", icon: BuiltInAppIcon::Games, accent: [233, 30, 99] },
        MockAppSpec { id: "news", name: "News", icon: BuiltInAppIcon::News, accent: [96, 125, 139] },
        MockAppSpec { id: "weather", name: "Weather", icon: BuiltInAppIcon::Weather, accent: [3, 169, 244] },
        MockAppSpec { id: "sports", name: "Sports", icon: BuiltInAppIcon::Sports, accent: [139, 195, 74] },
        MockAppSpec { id: "podcasts", name: "Podcasts", icon: BuiltInAppIcon::Podcasts, accent: [255, 87, 34] },
        MockAppSpec { id: "calendar", name: "Calendar", icon: BuiltInAppIcon::Calendar, accent: [63, 81, 181] },
        MockAppSpec { id: "mail", name: "Mail", icon: BuiltInAppIcon::Mail, accent: [0, 150, 136] },
        MockAppSpec { id: "camera", name: "Camera", icon: BuiltInAppIcon::Camera, accent: [255, 152, 0] },
        MockAppSpec { id: "terminal", name: "Terminal", icon: BuiltInAppIcon::Terminal, accent: [158, 158, 158] },
        MockAppSpec { id: "sleep", name: "Sleep", icon: BuiltInAppIcon::Sleep, accent: [103, 58, 183] },
        MockAppSpec { id: "search", name: "Search", icon: BuiltInAppIcon::Search, accent: [0, 121, 107] },
        MockAppSpec { id: "kids", name: "Kids", icon: BuiltInAppIcon::Kids, accent: [255, 64, 129] },
        MockAppSpec { id: "stream", name: "Stream", icon: BuiltInAppIcon::Stream, accent: [33, 150, 243] },
        MockAppSpec { id: "radio", name: "Radio", icon: BuiltInAppIcon::Radio, accent: [205, 220, 57] },
        MockAppSpec { id: "books", name: "Books", icon: BuiltInAppIcon::Books, accent: [141, 110, 99] },
        MockAppSpec { id: "fitness", name: "Fitness", icon: BuiltInAppIcon::Fitness, accent: [255, 87, 34] },
        MockAppSpec { id: "calls", name: "Calls", icon: BuiltInAppIcon::Calls, accent: [76, 175, 80] },
        MockAppSpec { id: "travel", name: "Travel", icon: BuiltInAppIcon::Travel, accent: [63, 81, 181] },
        MockAppSpec { id: "recipes", name: "Recipes", icon: BuiltInAppIcon::Recipes, accent: [255, 193, 7] },
        MockAppSpec { id: "security", name: "Security", icon: BuiltInAppIcon::Security, accent: [96, 125, 139] },
    ]
}

/// The descriptions of the mock apps, in catalogue order.
pub fn mock_app_specs() -> (specs: Vec<MockAppSpec>)
    ensures
        specs@ == mock_catalogue(),
{
    let mut specs: Vec<MockAppSpec> = Vec::new();
    specs.push(MockAppSpec { id: "live-tv", name: "Live TV", icon: BuiltInAppIcon::LiveTv, accent: [60, 133, 246] });
    specs.push(MockAppSpec { id: "movies", name: "Movies", icon: BuiltInAppIcon::Movies, accent: [255, 110, 64] });
    specs.push(MockAppSpec { id: "music", name: "Music", icon: BuiltInAppIcon::Music, accent: [76, 175, 80] });
    specs.push(MockAppSpec { id: "photos", name: "Photos", icon: BuiltInAppIcon::Photos, accent: [255, 193, 7] });
    specs.push(MockAppSpec { id: "browser", name: "Browser", icon: BuiltInAppIcon::Browser, accent: [0, 188, 212] });
    specs.push(MockAppSpec { id: "settings", name: "Settings", icon: BuiltInAppIcon::Settings, accent: [171, 71, 188] });
    specs.push(MockAppSpec { id: "store", name: "Store", icon: BuiltInAppIcon::Store, accent: [244, 67, 54] });
    specs.push(MockAppSpec { id: "files", name: "Files", icon: BuiltInAppIcon::Files, accent: [121, 85, 72] });
    specs.push(MockAppSpec { id: "games", name: "Games", icon: BuiltInAppIcon::Games, accent: [233, 30, 99] });
    specs.push(MockAppSpec { id: "news", name: "News", icon: BuiltInAppIcon::News, accent: [96, 125, 139] });
    specs.push(MockAppSpec { id: "weather", name: "Weather", icon: BuiltInAppIcon::Weather, accent: [3, 169, 244] });
    specs.push(MockAppSpec { id: "sports", name: "Sports", icon: BuiltInAppIcon::Sports, accent: [139, 195, 74] });
    specs.push(MockAppSpec { id: "podcasts", name: "Podcasts", icon: BuiltInAppIcon::Podcasts, accent: [255, 87, 34] });
    specs.push(MockAppSpec { id: "calendar", name: "Calendar", icon: BuiltInAppIcon::Calendar, accent: [63, 81, 181] });
    specs.push(MockAppSpec { id: "mail", name: "Mail", icon: BuiltInAppIcon::Mail, accent: [0, 150, 136] });
    specs.push(MockAppSpec { id: "camera", name: "Camera", icon: BuiltInAppIcon::Camera, accent: [255, 152, 0] });
    specs.push(MockAppSpec { id: "terminal", name: "Terminal", icon: BuiltInAppIcon::Terminal, accent: [158, 158, 158] });
    specs.push(MockAppSpec { id: "sleep", name: "Sleep", icon: BuiltInAppIcon::Sleep, accent: [103, 58, 183] });
    specs.push(MockAppSpec { id: "search", name: "Search", icon: BuiltInAppIcon::Search, accent: [0, 121, 107] });
    specs.push(MockAppSpec { id: "kids", name: "Kids", icon: BuiltInAppIcon::Kids, accent: [255, 64, 129] });
    specs.push(MockAppSpec { id: "stream", name: "Stream", icon: BuiltInAppIcon::Stream, accent: [33, 150, 243] });
    specs.push(MockAppSpec { id: "radio", name: "Radio", icon: BuiltInAppIcon::Radio, accent: [205, 220, 57] });
    specs.push(MockAppSpec { id: "books", name: "Books", icon: BuiltInAppIcon::Books, accent: [141, 110, 99] });
    specs.push(MockAppSpec { id: "fitness", name: "Fitness", icon: BuiltInAppIcon::Fitness, accent: [255, 87, 34] });
    specs.push(MockAppSpec { id: "calls", name: "Calls", icon: BuiltInAppIcon::Calls, accent: [76, 175, 80] });
    specs.push(MockAppSpec { id: "travel", name: "Travel", icon: BuiltInAppIcon::Travel, accent: [63, 81, 181] });
    specs.push(MockAppSpec { id: "recipes", name: "Recipes", icon: BuiltInAppIcon::Recipes, accent: [255, 193, 7] });
    specs.push(MockAppSpec { id: "security", name: "Security", icon: BuiltInAppIcon::Security, accent: [96, 125, 139] });
    assert(specs@ =~= mock_catalogue()) by {
        reveal(mock_catalogue);
    }
    specs
}

/// The catalogue of mock apps, in order.
pub fn default_app_entries() -> (entries: Vec<Rc<MockAppEntry>>)
    ensures
        entries@.len() == mock_catalogue().len(),
        forall|i: int|
            0 <= i < entries@.len() ==> #[trigger] entries@[i].id@ == mock_catalogue()[i].id@
                && entries@[i].name@ == mock_catalogue()[i].name@ && entries@[i].icon
                == AppIcon::BuiltIn(mock_catalogue()[i].icon) && entries@[i].accent
                == mock_catalogue()[i].accent,
{
    let specs = mock_app_specs();
    let mut entries: Vec<Rc<MockAppEntry>> = Vec::new();
    let mut i: usize = 0;
    while i < specs.len()
        invariant
            0 <= i <= specs.len(),
            specs@ == mock_catalogue(),
            entries@.len() == i,
            forall|k: int|
                0 <= k < i ==> #[trigger] entries@[k].id@ == mock_catalogue()[k].id@
                    && entries@[k].name@ == mock_catalogue()[k].name@ && entries@[k].icon
                    == AppIcon::BuiltIn(mock_catalogue()[k].icon) && entries@[k].accent
                    == mock_catalogue()[k].accent,
        decreases specs.len() - i,
    {
        let ghost before = entries@;
        let spec = specs[i];
        assert(spec == mock_catalogue()[i as int]);
        let entry = spec.to_entry();
        entries.push(entry);
        assert(entries@[i as int].id@ == mock_catalogue()[i as int].id@);
        assert(forall|k: int| 0 <= k < i ==> entries@[k] == before[k]);
        i = i + 1;
    }
    entries
}

} // verus!
