//! Detector modules: the four entry points that a module must offer,
//! how one is loaded step by step, and what a worker does with each
//! chunk of text.

use crate::text::to_chars;
use vstd::prelude::*;
use vstd::string::StringExecFns;

verus! {

pub const PLUGIN_NAME_FUNC_NAME: &'static str = "get_plugin_name";

pub const LOG_PATH_FUNC_NAME: &'static str = "get_log_path";

pub const PLUGIN_CHECK_LOG_PARSEABLE: &'static str = "check_log_parseable";

pub const PLUGIN_PARSE_LOG_STRING_NAME: &'static str = "parse_log_string";

/// One of the four entry points that every module offers.
#[derive(Debug, Clone, Copy, PartialEq, Eq, Hash, Structural)]
pub enum RequiredSymbol {
    GetPluginName,
    GetLogPath,
    CheckLogParseable,
    ParseLogString,
}

impl RequiredSymbol {
    /// The exact name under which the entry point is looked up.
    pub open spec fn spec_name(self) -> Seq<char> {
        match self {
            RequiredSymbol::GetPluginName => PLUGIN_NAME_FUNC_NAME@,
            RequiredSymbol::GetLogPath => LOG_PATH_FUNC_NAME@,
            RequiredSymbol::CheckLogParseable => PLUGIN_CHECK_LOG_PARSEABLE@,
            RequiredSymbol::ParseLogString => PLUGIN_PARSE_LOG_STRING_NAME@,
        }
    }

    /// The entry point that is looked up after this one; none after the
    /// last.
    pub open spec fn spec_next(self) -> Option<RequiredSymbol> {
        match self {
            RequiredSymbol::GetPluginName => Some(RequiredSymbol::GetLogPath),
            RequiredSymbol::GetLogPath => Some(RequiredSymbol::CheckLogParseable),
            RequiredSymbol::CheckLogParseable => Some(RequiredSymbol::ParseLogString),
            RequiredSymbol::ParseLogString => None,
        }
    }

    pub fn name(self) -> (n: &'static str)
        ensures
            n@ == self.spec_name(),
    {
        match self {
            RequiredSymbol::GetPluginName => PLUGIN_NAME_FUNC_NAME,
            RequiredSymbol::GetLogPath => LOG_PATH_FUNC_NAME,
            RequiredSymbol::CheckLogParseable => PLUGIN_CHECK_LOG_PARSEABLE,
            RequiredSymbol::ParseLogString => PLUGIN_PARSE_LOG_STRING_NAME,
        }
    }

    #[verifier::when_used_as_spec(spec_next)]
    pub fn next(self) -> (n: Option<RequiredSymbol>)
        ensures
            n == self.spec_next(),
    {
        match self {
            RequiredSymbol::GetPluginName => Some(RequiredSymbol::GetLogPath),
            RequiredSymbol::GetLogPath => Some(RequiredSymbol::CheckLogParseable),
            RequiredSymbol::CheckLogParseable => Some(RequiredSymbol::ParseLogString),
            RequiredSymbol::ParseLogString => None,
        }
    }
}

/// Why a module was not loaded.
#[derive(Debug)]
pub enum PluginError {
    /// Nothing loadable is at this path.
    PluginLoadError(String),
    /// The module at this path does not keep the contract at this entry
    /// point: the entry point is missing, or what it returned is no
    /// text.
    InvalidPluginError(String, RequiredSymbol),
}

impl PluginError {
    /// What the error says, in words.
    pub open spec fn spec_message(&self) -> Seq<char> {
        match self {
            PluginError::PluginLoadError(path) => "Unable to load plugin at path "@ + path@,
            PluginError::InvalidPluginError(path, symbol) => "Plugin located at "@ + path@
                + " has an invalid signature: "@ + symbol.spec_name(),
        }
    }

    pub fn message(&self) -> (text: String)
        ensures
            text@ == self.spec_message(),
    {
        match self {
            PluginError::PluginLoadError(path) => {
                let mut text = String::from_str("Unable to load plugin at path ");
                text.append(path.as_str());
                text
            },
            PluginError::InvalidPluginError(path, symbol) => {
                let mut text = String::from_str("Plugin located at ");
                text.append(path.as_str());
                text.append(" has an invalid signature: ");
                text.append(symbol.name());
                text
            },
        }
    }
}

/// A loaded module, as far as the engine needs to know it: its name and
/// where it was loaded from.
#[derive(Debug)]
pub struct Plugin {
    pub plugin_name: String,
    pub plugin_location: String,
}

impl Plugin {
    pub fn get_plugin_name(&self) -> (name: &str)
        ensures
            name@ == self.plugin_name@,
    {
        self.plugin_name.as_str()
    }

    /// The log file that the module wants read, given what its
    /// `get_log_path` returned: that text, or, where it returned no
    /// text, the error that the module is invalid at this entry point.
    pub fn get_log_path(&self, returned: Option<String>) -> (res: Result<String, PluginError>)
        ensures
            match returned {
                Some(path) => res == Ok::<String, PluginError>(path),
                None => res == Err::<String, PluginError>(
                    PluginError::InvalidPluginError(
                        self.plugin_location,
                        RequiredSymbol::GetLogPath,
                    ),
                ),
            },
    {
        match returned {
            Some(path) => Ok(path),
            None => Err(
                PluginError::InvalidPluginError(
                    self.plugin_location.clone(),
                    RequiredSymbol::GetLogPath,
                ),
            ),
        }
    }
}

/// What the loader is waiting for.
#[derive(Debug)]
pub enum LoadStage {
    /// For the library to be opened.
    Opening,
    /// For this entry point to be looked up.
    Resolving(RequiredSymbol),
    /// For the module to say its name.
    Naming,
}

/// The loading of one module, part way through.
#[derive(Debug)]
pub struct ModuleLoader {
    pub location: String,
    pub stage: LoadStage,
}

/// What the loader asks to have done next.
#[derive(Debug, Clone, Copy, PartialEq, Eq, Hash, Structural)]
pub enum LoadRequest {
    /// Open the library at the loader's location.
    Open,
    /// Look this entry point up by its name.
    Resolve(RequiredSymbol),
    /// Call this entry point, which returns text.
    Call(RequiredSymbol),
}

/// What came of the loader's last request.
#[derive(Debug)]
pub enum LoadEvent {
    /// Whether the library could be opened.
    Opened(bool),
    /// Whether the entry point was found.
    Resolved(bool),
    /// The text that the entry point returned; `None` where it is not
    /// UTF-8.
    Returned(Option<String>),
}

/// Where loading stands after an event.
#[derive(Debug)]
pub enum LoadProgress {
    /// Not done: carry out the request and come back with its event.
    Next(ModuleLoader, LoadRequest),
    Loaded(Plugin),
    Failed(PluginError),
}

impl ModuleLoader {
    /// The loader for the module at `location`, and its first request.
    pub open spec fn spec_begin(location: String) -> LoadProgress {
        LoadProgress::Next(ModuleLoader { location, stage: LoadStage::Opening }, LoadRequest::Open)
    }

    /// One step of loading. The library is opened, then the four entry
    /// points are looked up in turn, then the module is asked for its
    /// name, once. A library that cannot be opened is a load error. An
    /// entry point that is missing makes the module invalid at that
    /// entry point, and so does a name that is no text. An event that
    /// does not answer the loader's request is a load error.
    pub open spec fn spec_advance(self, event: LoadEvent) -> LoadProgress {
        match (self.stage, event) {
            (LoadStage::Opening, LoadEvent::Opened(true)) => LoadProgress::Next(
                ModuleLoader {
                    location: self.location,
                    stage: LoadStage::Resolving(RequiredSymbol::GetPluginName),
                },
                LoadRequest::Resolve(RequiredSymbol::GetPluginName),
            ),
            (LoadStage::Resolving(symbol), LoadEvent::Resolved(true)) => match symbol.spec_next() {
                Some(next) => LoadProgress::Next(
                    ModuleLoader { location: self.location, stage: LoadStage::Resolving(next) },
                    LoadRequest::Resolve(next),
                ),
                None => LoadProgress::Next(
                    ModuleLoader { location: self.location, stage: LoadStage::Naming },
                    LoadRequest::Call(RequiredSymbol::GetPluginName),
                ),
            },
            (LoadStage::Resolving(symbol), LoadEvent::Resolved(false)) => LoadProgress::Failed(
                PluginError::InvalidPluginError(self.location, symbol),
            ),
            (LoadStage::Naming, LoadEvent::Returned(Some(name))) => LoadProgress::Loaded(
                Plugin { plugin_name: name, plugin_location: self.location },
            ),
            (LoadStage::Naming, LoadEvent::Returned(None)) => LoadProgress::Failed(
                PluginError::InvalidPluginError(self.location, RequiredSymbol::GetPluginName),
            ),
            _ => LoadProgress::Failed(PluginError::PluginLoadError(self.location)),
        }
    }

    #[verifier::when_used_as_spec(spec_begin)]
    pub fn begin(location: String) -> (progress: LoadProgress)
        ensures
            progress == Self::spec_begin(location),
    {
        LoadProgress::Next(ModuleLoader { location, stage: LoadStage::Opening }, LoadRequest::Open)
    }

    #[verifier::when_used_as_spec(spec_advance)]
    pub fn advance(self, event: LoadEvent) -> (progress: LoadProgress)
        ensures
            progress == self.spec_advance(event),
    {
        let location = self.location;
        match (self.stage, event) {
            (LoadStage::Opening, LoadEvent::Opened(true)) => LoadProgress::Next(
                ModuleLoader { location, stage: LoadStage::Resolving(RequiredSymbol::GetPluginName) },
                LoadRequest::Resolve(RequiredSymbol::GetPluginName),
            ),
            (LoadStage::Resolving(symbol), LoadEvent::Resolved(true)) => match symbol.next() {
                Some(next) => LoadProgress::Next(
                    ModuleLoader { location, stage: LoadStage::Resolving(next) },
                    LoadRequest::Resolve(next),
                ),
                None => LoadProgress::Next(
                    ModuleLoader { location, stage: LoadStage::Naming },
                    LoadRequest::Call(RequiredSymbol::GetPluginName),
                ),
            },
            (LoadStage::Resolving(symbol), LoadEvent::Resolved(false)) => LoadProgress::Failed(
                PluginError::InvalidPluginError(location, symbol),
            ),
            (LoadStage::Naming, LoadEvent::Returned(Some(name))) => LoadProgress::Loaded(
                Plugin { plugin_name: name, plugin_location: location },
            ),
            (LoadStage::Naming, LoadEvent::Returned(None)) => LoadProgress::Failed(
                PluginError::InvalidPluginError(location, RequiredSymbol::GetPluginName),
            ),
            _ => LoadProgress::Failed(PluginError::PluginLoadError(location)),
        }
    }
}

/// What a module binary offers: whether it can be opened, which entry
/// points it has, and what the two entry points that return text return
/// (`None` where that is no text).
#[derive(Debug)]
pub struct ModuleImage {
    pub loadable: bool,
    pub has_get_plugin_name: bool,
    pub has_get_log_path: bool,
    pub has_check_log_parseable: bool,
    pub has_parse_log_string: bool,
    pub plugin_name: Option<String>,
    pub log_path: Option<String>,
}

impl ModuleImage {
    /// Whether the binary has this entry point.
    pub open spec fn spec_offers(&self, symbol: RequiredSymbol) -> bool {
        match symbol {
            RequiredSymbol::GetPluginName => self.has_get_plugin_name,
            RequiredSymbol::GetLogPath => self.has_get_log_path,
            RequiredSymbol::CheckLogParseable => self.has_check_log_parseable,
            RequiredSymbol::ParseLogString => self.has_parse_log_string,
        }
    }

    /// The first entry point, in the order of lookup, that the binary
    /// lacks.
    pub open spec fn first_missing(&self) -> Option<RequiredSymbol> {
        if !self.has_get_plugin_name {
            Some(RequiredSymbol::GetPluginName)
        } else if !self.has_get_log_path {
            Some(RequiredSymbol::GetLogPath)
        } else if !self.has_check_log_parseable {
            Some(RequiredSymbol::CheckLogParseable)
        } else if !self.has_parse_log_string {
            Some(RequiredSymbol::ParseLogString)
        } else {
            None
        }
    }

    /// What the binary answers to a request of the loader.
    pub open spec fn spec_answer(&self, request: LoadRequest) -> LoadEvent {
        match request {
            LoadRequest::Open => LoadEvent::Opened(self.loadable),
            LoadRequest::Resolve(symbol) => LoadEvent::Resolved(self.spec_offers(symbol)),
            LoadRequest::Call(RequiredSymbol::GetPluginName) => LoadEvent::Returned(
                self.plugin_name,
            ),
            LoadRequest::Call(RequiredSymbol::GetLogPath) => LoadEvent::Returned(self.log_path),
            LoadRequest::Call(_) => LoadEvent::Returned(None),
        }
    }

    #[verifier::when_used_as_spec(spec_offers)]
    pub fn offers(&self, symbol: RequiredSymbol) -> (has: bool)
        ensures
            has == self.spec_offers(symbol),
    {
        match symbol {
            RequiredSymbol::GetPluginName => self.has_get_plugin_name,
            RequiredSymbol::GetLogPath => self.has_get_log_path,
            RequiredSymbol::CheckLogParseable => self.has_check_log_parseable,
            RequiredSymbol::ParseLogString => self.has_parse_log_string,
        }
    }

    #[verifier::when_used_as_spec(spec_answer)]
    pub fn answer(&self, request: LoadRequest) -> (event: LoadEvent)
        ensures
            event == self.spec_answer(request),
    {
        match request {
            LoadRequest::Open => LoadEvent::Opened(self.loadable),
            LoadRequest::Resolve(symbol) => LoadEvent::Resolved(self.offers(symbol)),
            LoadRequest::Call(RequiredSymbol::GetPluginName) => LoadEvent::Returned(
                copy_of(&self.plugin_name),
            ),
            LoadRequest::Call(RequiredSymbol::GetLogPath) => LoadEvent::Returned(
                copy_of(&self.log_path),
            ),
            LoadRequest::Call(_) => LoadEvent::Returned(None),
        }
    }
}

fn copy_of(text: &Option<String>) -> (copy: Option<String>)
    ensures
        copy == *text,
{
    match text {
        Some(s) => Some(s.clone()),
        None => None,
    }
}

/// What loading the binary `image` from `location` comes to. A binary
/// that cannot be opened is a load error. One that lacks an entry point
/// is invalid at the first it lacks. One whose name is no text is
/// invalid at `get_plugin_name`. Any other binary is loaded, and the
/// module's name is the text that `get_plugin_name` returned.
pub open spec fn load_outcome(location: String, image: ModuleImage) -> Result<Plugin, PluginError> {
    if !image.loadable {
        Err(PluginError::PluginLoadError(location))
    } else {
        match image.first_missing() {
            Some(symbol) => Err(PluginError::InvalidPluginError(location, symbol)),
            None => match image.plugin_name {
                None => Err(
                    PluginError::InvalidPluginError(location, RequiredSymbol::GetPluginName),
                ),
                Some(name) => Ok(Plugin { plugin_name: name, plugin_location: location }),
            },
        }
    }
}

/// Where loading stands after the binary has answered up to `rounds`
/// requests.
pub open spec fn drive(progress: LoadProgress, image: ModuleImage, rounds: nat) -> LoadProgress
    decreases rounds,
{
    match progress {
        LoadProgress::Next(loader, request) => if rounds == 0 {
            progress
        } else {
            drive(loader.spec_advance(image.spec_answer(request)), image, (rounds - 1) as nat)
        },
        _ => progress,
    }
}

/// The requests that the loader makes while the binary answers up to
/// `rounds` of them, in order.
pub open spec fn asked(progress: LoadProgress, image: ModuleImage, rounds: nat) -> Seq<LoadRequest>
    decreases rounds,
{
    match progress {
        LoadProgress::Next(loader, request) => if rounds == 0 {
            Seq::empty()
        } else {
            seq![request] + asked(
                loader.spec_advance(image.spec_answer(request)),
                image,
                (rounds - 1) as nat,
            )
        },
        _ => Seq::empty(),
    }
}

/// The end of loading, as a stage of progress.
pub open spec fn finished(outcome: Result<Plugin, PluginError>) -> LoadProgress {
    match outcome {
        Ok(plugin) => LoadProgress::Loaded(plugin),
        Err(e) => LoadProgress::Failed(e),
    }
}

/// The loader, answered by a binary, is done after six requests at most,
/// with the outcome that [`load_outcome`] states for that binary.
pub proof fn lemma_loader_reaches_outcome(location: String, image: ModuleImage)
    ensures
        drive(ModuleLoader::spec_begin(location), image, 6) == finished(
            load_outcome(location, image),
        ),
{
    reveal_with_fuel(drive, 7);
}

/// A binary that can be opened, has all four entry points and returns
/// text from `get_plugin_name` is loaded, under the name that its
/// `get_plugin_name` returned. What its other entry points do has no
/// part in it.
pub proof fn lemma_valid_module_loads(location: String, image: ModuleImage)
    requires
        image.loadable,
        forall|symbol: RequiredSymbol| image.spec_offers(symbol),
        image.plugin_name is Some,
    ensures
        load_outcome(location, image) matches Ok(plugin) && plugin.plugin_name
            == image.plugin_name->0 && plugin.plugin_location == location,
        drive(ModuleLoader::spec_begin(location), image, 6) == finished(
            load_outcome(location, image),
        ),
{
    assert(image.spec_offers(RequiredSymbol::GetPluginName));
    assert(image.spec_offers(RequiredSymbol::GetLogPath));
    assert(image.spec_offers(RequiredSymbol::CheckLogParseable));
    assert(image.spec_offers(RequiredSymbol::ParseLogString));
    lemma_loader_reaches_outcome(location, image);
}

/// Loading a binary that can be opened and has all four entry points
/// opens it, looks the four entry points up in their order, and then
/// calls `get_plugin_name`: once, and no other entry point.
pub proof fn lemma_valid_module_is_asked_for_its_name_once(location: String, image: ModuleImage)
    requires
        image.loadable,
        forall|symbol: RequiredSymbol| image.spec_offers(symbol),
    ensures
        asked(ModuleLoader::spec_begin(location), image, 6) == seq![
            LoadRequest::Open,
            LoadRequest::Resolve(RequiredSymbol::GetPluginName),
            LoadRequest::Resolve(RequiredSymbol::GetLogPath),
            LoadRequest::Resolve(RequiredSymbol::CheckLogParseable),
            LoadRequest::Resolve(RequiredSymbol::ParseLogString),
            LoadRequest::Call(RequiredSymbol::GetPluginName),
        ],
{
    assert(image.spec_offers(RequiredSymbol::GetPluginName));
    assert(image.spec_offers(RequiredSymbol::GetLogPath));
    assert(image.spec_offers(RequiredSymbol::CheckLogParseable));
    assert(image.spec_offers(RequiredSymbol::ParseLogString));
    reveal_with_fuel(asked, 7);
    assert(asked(ModuleLoader::spec_begin(location), image, 6) =~= seq![
        LoadRequest::Open,
        LoadRequest::Resolve(RequiredSymbol::GetPluginName),
        LoadRequest::Resolve(RequiredSymbol::GetLogPath),
        LoadRequest::Resolve(RequiredSymbol::CheckLogParseable),
        LoadRequest::Resolve(RequiredSymbol::ParseLogString),
        LoadRequest::Call(RequiredSymbol::GetPluginName),
    ]);
}

/// A binary that can be opened and lacks one of the four entry points is
/// not loaded, and the error names its location and that entry point.
pub proof fn lemma_missing_symbol_fails(
    location: String,
    image: ModuleImage,
    missing: RequiredSymbol,
)
    requires
        image.loadable,
        forall|symbol: RequiredSymbol| image.spec_offers(symbol) <==> symbol != missing,
    ensures
        load_outcome(location, image) == Err::<Plugin, PluginError>(
            PluginError::InvalidPluginError(location, missing),
        ),
        drive(ModuleLoader::spec_begin(location), image, 6) == LoadProgress::Failed(
            PluginError::InvalidPluginError(location, missing),
        ),
{
    assert(image.spec_offers(RequiredSymbol::GetPluginName) <==> RequiredSymbol::GetPluginName
        != missing);
    assert(image.spec_offers(RequiredSymbol::GetLogPath) <==> RequiredSymbol::GetLogPath
        != missing);
    assert(image.spec_offers(RequiredSymbol::CheckLogParseable)
        <==> RequiredSymbol::CheckLogParseable != missing);
    assert(image.spec_offers(RequiredSymbol::ParseLogString) <==> RequiredSymbol::ParseLogString
        != missing);
    lemma_loader_reaches_outcome(location, image);
}

/// A binary that lacks any entry point is never loaded.
pub proof fn lemma_incomplete_module_never_loads(
    location: String,
    image: ModuleImage,
    missing: RequiredSymbol,
)
    requires
        !image.spec_offers(missing),
    ensures
        load_outcome(location, image) is Err,
        drive(ModuleLoader::spec_begin(location), image, 6) is Failed,
{
    lemma_loader_reaches_outcome(location, image);
}

/// The error of a module that lacks an entry point says where the
/// module is and ends in the name of that entry point.
pub proof fn lemma_error_names_the_symbol(location: String, missing: RequiredSymbol)
    ensures
        ({
            let message = PluginError::InvalidPluginError(location, missing).spec_message();
            let name = missing.spec_name();
            let start = "Plugin located at "@.len() as int;
            &&& message.len() >= start + location@.len() + name.len()
            &&& message.subrange(message.len() - name.len(), message.len() as int) == name
            &&& message.subrange(start, start + location@.len()) == location@
        }),
{
    let message = PluginError::InvalidPluginError(location, missing).spec_message();
    let name = missing.spec_name();
    let start = "Plugin located at "@.len() as int;
    assert(message.subrange(message.len() - name.len(), message.len() as int) =~= name);
    assert(message.subrange(start, start + location@.len()) =~= location@);
}

/// How many requests a loader at this stage can still make.
pub open spec fn requests_left(stage: LoadStage) -> nat {
    match stage {
        LoadStage::Opening => 6,
        LoadStage::Resolving(RequiredSymbol::GetPluginName) => 5,
        LoadStage::Resolving(RequiredSymbol::GetLogPath) => 4,
        LoadStage::Resolving(RequiredSymbol::CheckLogParseable) => 3,
        LoadStage::Resolving(RequiredSymbol::ParseLogString) => 2,
        LoadStage::Naming => 1,
    }
}

impl Plugin {
    /// Loads the module at `plugin_location`, whose binary is `image`, by
    /// running the loader against it.
    pub fn new(plugin_location: String, image: &ModuleImage) -> (res: Result<Plugin, PluginError>)
        ensures
            res == load_outcome(plugin_location, *image),
    {
        proof {
            lemma_loader_reaches_outcome(plugin_location, *image);
        }
        let mut progress = ModuleLoader::begin(plugin_location);
        let mut rounds: u8 = 0;
        loop
            invariant
                rounds <= 6,
                progress matches LoadProgress::Next(loader, _) ==> requests_left(loader.stage)
                    + rounds <= 6,
                drive(progress, *image, (6 - rounds) as nat) == finished(
                    load_outcome(plugin_location, *image),
                ),
            decreases 6 - rounds,
        {
            match progress {
                LoadProgress::Next(loader, request) => {
                    let event = image.answer(request);
                    progress = loader.advance(event);
                    rounds = rounds + 1;
                },
                LoadProgress::Loaded(plugin) => {
                    return Ok(plugin);
                },
                LoadProgress::Failed(e) => {
                    return Err(e);
                },
            }
        }
    }
}

/// Why a chunk cannot be handed to a module.
#[derive(Debug, Clone, Copy, PartialEq, Eq, Hash, Structural)]
pub enum DispatchError {
    /// The text holds a NUL character, which would end it early on the
    /// module's side.
    InteriorNul,
}

/// What a worker does with a chunk once the module has looked at it.
#[derive(Debug, Clone, Copy, PartialEq, Eq, Hash, Structural)]
pub enum DispatchAction {
    /// Hand the same text to the module's `parse_log_string`.
    Parse,
    /// Leave the chunk out.
    Drop,
}

/// Whether a text can cross to a module as a NUL-terminated string: it
/// holds no NUL character itself.
pub open spec fn crosses_boundary(text: Seq<char>) -> bool {
    forall|i: int| 0 <= i < text.len() ==> text[i] != '\0'
}

/// Checks a chunk's text before it is handed to a module.
pub fn check_boundary(text: &str) -> (res: Result<(), DispatchError>)
    ensures
        res is Ok <==> crosses_boundary(text@),
        res matches Err(e) ==> e == DispatchError::InteriorNul,
{
    let chars = to_chars(text);
    let mut i: usize = 0;
    while i < chars.len()
        invariant
            i <= chars.len(),
            chars@ == text@,
            forall|j: int| 0 <= j < i ==> text@[j] != '\0',
        decreases chars.len() - i,
    {
        if chars[i] == '\0' {
            return Err(DispatchError::InteriorNul);
        }
        i += 1;
    }
    Ok(())
}

/// What to do with a chunk, given what the module's
/// `check_log_parseable` said of it: parse it if the module can, else
/// leave it out.
pub fn after_check(parseable: bool) -> (action: DispatchAction)
    ensures
        action == (if parseable {
            DispatchAction::Parse
        } else {
            DispatchAction::Drop
        }),
{
    if parseable {
        DispatchAction::Parse
    } else {
        DispatchAction::Drop
    }
}

} // verus!
