use vstd::prelude::*;
use vstd::string::*;

verus! {

/// The metadata endpoint; the API key is appended to it.
pub const API_ENDPOINT: &'static str = "https://api.nasa.gov/planetary/apod?api_key=";

/// The name under which every run saves the image, in the pictures directory.
pub const IMAGE_FILE_NAME: &'static str = "apod.jpg";

pub const MISSING_KEY_MESSAGE: &'static str = "APOD_KEY must be set in the environment";

pub const FETCH_FAILURE: &'static str = "Failed to fetch image data: ";

pub const DOWNLOAD_FAILURE: &'static str = "Failed to download image: ";

pub const WALLPAPER_FAILURE: &'static str = "Failed to set wallpaper: ";

/// The part of the picture-of-the-day metadata that the run uses.
#[derive(Debug, Clone)]
pub struct ApodMetadata {
    /// Address of the high-definition image.
    pub hdurl: String,
}

/// A run cannot start.
#[derive(Debug, PartialEq, Eq, Structural, Clone, Copy)]
pub enum ConfigError {
    /// No API key is configured.
    MissingApiKey,
}

impl ConfigError {
    /// The fixed text reported when startup stops.
    pub fn message(&self) -> (r: String)
        ensures
            r@ == MISSING_KEY_MESSAGE@,
    {
        MISSING_KEY_MESSAGE.to_owned()
    }
}

/// What one stage of a run reported back; errors are carried as their text.
#[derive(Debug)]
pub enum Event {
    Fetched(Result<ApodMetadata, String>),
    Downloaded(Result<String, String>),
    WallpaperApplied(Result<(), String>),
}

/// What a run does next.
#[derive(Debug)]
pub enum Action {
    /// Request the metadata at `url`.
    Fetch { url: String },
    /// Download the image at `url` into the pictures directory as `file_name`.
    Download { url: String, file_name: String },
    /// Make the saved image at `path` the wallpaper.
    SetWallpaper { path: String },
    /// Write `message` to the error stream; the run ends.
    Report { message: String },
    /// The run is complete.
    Finish,
}

/// An action with its text as character sequences.
pub enum ActionModel {
    Fetch { url: Seq<char> },
    Download { url: Seq<char>, file_name: Seq<char> },
    SetWallpaper { path: Seq<char> },
    Report { message: Seq<char> },
    Finish,
}

impl View for Action {
    type V = ActionModel;

    open spec fn view(&self) -> ActionModel {
        match self {
            Action::Fetch { url } => ActionModel::Fetch { url: url@ },
            Action::Download { url, file_name } => ActionModel::Download {
                url: url@,
                file_name: file_name@,
            },
            Action::SetWallpaper { path } => ActionModel::SetWallpaper { path: path@ },
            Action::Report { message } => ActionModel::Report { message: message@ },
            Action::Finish => ActionModel::Finish,
        }
    }
}

impl ActionModel {
    /// The action makes a network request.
    pub open spec fn is_request(self) -> bool {
        self is Fetch || self is Download
    }
}

/// The metadata request for an API key.
pub open spec fn url_for_key(api_key: Seq<char>) -> Seq<char> {
    API_ENDPOINT@ + api_key
}

/// The first step of a run, given the configured API key if any.
pub open spec fn first_step(api_key: Option<Seq<char>>) -> Result<ActionModel, ConfigError> {
    match api_key {
        Some(k) => Ok(ActionModel::Fetch { url: url_for_key(k) }),
        None => Err(ConfigError::MissingApiKey),
    }
}

/// The step that follows each report: download what was fetched, apply what
/// was downloaded, finish once applied, and report any failure.
pub open spec fn step_after(event: Event) -> ActionModel {
    match event {
        Event::Fetched(Ok(m)) => ActionModel::Download { url: m.hdurl@, file_name: IMAGE_FILE_NAME@ },
        Event::Fetched(Err(e)) => ActionModel::Report { message: FETCH_FAILURE@ + e@ },
        Event::Downloaded(Ok(p)) => ActionModel::SetWallpaper { path: p@ },
        Event::Downloaded(Err(e)) => ActionModel::Report { message: DOWNLOAD_FAILURE@ + e@ },
        Event::WallpaperApplied(Ok(())) => ActionModel::Finish,
        Event::WallpaperApplied(Err(e)) => ActionModel::Report { message: WALLPAPER_FAILURE@ + e@ },
    }
}

fn joined(head: &str, tail: &str) -> (r: String)
    ensures
        r@ == head@ + tail@,
{
    let mut s = head.to_owned();
    s.append(tail);
    s
}

/// The metadata URL that embeds `api_key`.
pub fn api_url(api_key: &str) -> (r: String)
    ensures
        r@ == url_for_key(api_key@),
{
    joined(API_ENDPOINT, api_key)
}

/// Starts a run: with an API key the first action is the metadata request,
/// without one the run stops before any request.
pub fn start(api_key: Option<String>) -> (r: Result<Action, ConfigError>)
    ensures
        api_key is None <==> r is Err,
        api_key is None ==> r == Err::<Action, ConfigError>(ConfigError::MissingApiKey),
        api_key is Some ==> r is Ok && r->Ok_0@ == first_step(Some(api_key->Some_0@))->Ok_0,
        r is Ok ==> r->Ok_0@.is_request(),
{
    match api_key {
        Some(k) => Ok(Action::Fetch { url: api_url(k.as_str()) }),
        None => Err(ConfigError::MissingApiKey),
    }
}

/// Decides what a run does after `event`.
pub fn next_action(event: Event) -> (r: Action)
    ensures
        r@ == step_after(event),
{
    match event {
        Event::Fetched(Ok(m)) => Action::Download { url: m.hdurl, file_name: IMAGE_FILE_NAME.to_owned() },
        Event::Fetched(Err(e)) => Action::Report { message: joined(FETCH_FAILURE, e.as_str()) },
        Event::Downloaded(Ok(p)) => Action::SetWallpaper { path: p },
        Event::Downloaded(Err(e)) => Action::Report { message: joined(DOWNLOAD_FAILURE, e.as_str()) },
        Event::WallpaperApplied(Ok(())) => Action::Finish,
        Event::WallpaperApplied(Err(e)) => Action::Report {
            message: joined(WALLPAPER_FAILURE, e.as_str()),
        },
    }
}

/// Two runs save their images under the same file name, whatever metadata
/// each fetched, so a second run overwrites the first run's file.
pub proof fn lemma_same_destination(first: ApodMetadata, second: ApodMetadata)
    ensures
        step_after(Event::Fetched(Ok(first))) is Download,
        step_after(Event::Fetched(Ok(second))) is Download,
        step_after(Event::Fetched(Ok(first)))->Download_file_name
            == step_after(Event::Fetched(Ok(second)))->Download_file_name,
        step_after(Event::Fetched(Ok(first)))->Download_file_name == IMAGE_FILE_NAME@,
{
}

/// A failed fetch or download is reported and no further request follows.
pub proof fn lemma_failure_stops_requests(e: String)
    ensures
        !step_after(Event::Fetched(Err(e))).is_request(),
        !step_after(Event::Downloaded(Err(e))).is_request(),
        !step_after(Event::WallpaperApplied(Err(e))).is_request(),
{
}

} // verus!
