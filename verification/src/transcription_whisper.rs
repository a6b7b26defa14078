//! The local Whisper engine: a whisper.cpp binary invoked directly (no shell)
//! on a WAV file. This module decides what to run and what its output means;
//! the caller runs the process.
use vstd::prelude::*;
use crate::text::{int_string, owned, push_i64, string_of, trim, trim_string};
use crate::transcription::{
    file_name_of, path_file_name, whisper_config_error, EngineKind, TranscriptionRequest, TranscriptionResult, WhisperConfig,
};

verus! {

/// Local Whisper transcription engine.
pub struct LocalWhisperEngine {
    pub config: WhisperConfig,
}

/// What the caller found on disk before the run.
#[derive(Debug, Clone, Copy)]
pub struct WhisperProbes {
    pub binary_exists: bool,
    pub binary_is_file: bool,
    pub model_exists: bool,
    pub model_is_file: bool,
    pub audio_exists: bool,
}

/// How running the binary went.
#[derive(Debug, Clone)]
pub enum ProcessRun {
    /// The process could not be started; the error text.
    SpawnFailed { error: String },
    /// The process ran; its exit status and its output, decoded.
    Finished { success: bool, exit_code: Option<i32>, stdout: String, stderr: String },
}

/// The arguments handed to whisper.cpp.
pub open spec fn whisper_args(audio_path: Seq<char>, c: WhisperConfig) -> Seq<Seq<char>> {
    let base = seq!["-m"@, c.model_path@, "-f"@, audio_path, "--output-txt"@, "--no-timestamps"@];
    match c.language {
        Some(l) => if trim(l@).len() > 0 {
            base + seq!["-l"@, trim(l@)]
        } else {
            base
        },
        None => base,
    }
}

/// Why the run is refused before the process starts.
pub open spec fn whisper_preflight_error(
    c: WhisperConfig,
    request: TranscriptionRequest,
    p: WhisperProbes,
) -> Option<Seq<char>> {
    match whisper_config_error(c, p.binary_exists, p.binary_is_file, p.model_exists, p.model_is_file) {
        Some(m) => Some(m),
        None => if !p.audio_exists {
            Some("Audio file not found: "@ + request.audio_file_path@ + ". Record audio first."@)
        } else {
            None
        },
    }
}

/// The engine name shown for a model at `model_path`.
pub open spec fn whisper_engine_name(model_path: Seq<char>) -> Seq<char> {
    "Local Whisper ("@ + match path_file_name(model_path) {
        Some(n) => n,
        None => "unknown"@,
    } + ")"@
}

/// What a finished run means.
pub open spec fn whisper_run_outcome(
    c: WhisperConfig,
    request: TranscriptionRequest,
    run: ProcessRun,
    duration_ms: u64,
    created_at: String,
    r: Result<TranscriptionResult, String>,
) -> bool {
    match run {
        ProcessRun::SpawnFailed { error } => r matches Err(m) && m@ == "Failed to run whisper binary '"@
            + c.binary_path@ + "': "@ + error@ + ". Is whisper.cpp installed and in your PATH?"@,
        ProcessRun::Finished { success, exit_code, stdout, stderr } => if !success {
            r matches Err(m) && m@ == "Whisper process exited with code "@ + int_string(
                match exit_code {
                    Some(x) => x as int,
                    None => -1,
                },
            ) + ". Error: "@ + trim(stderr@)
        } else if trim(stdout@).len() == 0 {
            r matches Err(m) && m@
                == "Whisper produced no output. The audio may be silent or too short. Details: "@
                + trim(stderr@)
        } else {
            r matches Ok(t) && t.raw_text@ == trim(stdout@) && t.engine_name@ == whisper_engine_name(
                c.model_path@,
            ) && t.engine_kind == EngineKind::LocalWhisper && t.audio_file_path@
                == request.audio_file_path@ && t.duration_ms == duration_ms && !t.is_mock
                && t.created_at == created_at && t.error is None
        },
    }
}

impl LocalWhisperEngine {
    /// Create a new engine with the given configuration.
    pub fn new(config: WhisperConfig) -> (r: Self)
        ensures
            r.config == config,
    {
        LocalWhisperEngine { config }
    }

    pub fn name(&self) -> (r: &'static str)
        ensures
            r@ == "Local Whisper"@,
    {
        "Local Whisper"
    }

    pub fn kind(&self) -> (r: EngineKind)
        ensures
            r == EngineKind::LocalWhisper,
    {
        EngineKind::LocalWhisper
    }

    /// The command arguments for whisper.cpp, passed as a list (no shell).
    pub fn build_args(audio_path: &str, config: &WhisperConfig) -> (r: Vec<String>)
        ensures
            crate::text::string_views(r@) == whisper_args(audio_path@, *config),
    {
        let mut args: Vec<String> = Vec::new();
        args.push(owned("-m"));
        args.push(config.model_path.clone());
        args.push(owned("-f"));
        args.push(owned(audio_path));
        args.push(owned("--output-txt"));
        args.push(owned("--no-timestamps"));
        let ghost base = crate::text::string_views(args@);
        assert(base =~= seq![
            "-m"@,
            config.model_path@,
            "-f"@,
            audio_path@,
            "--output-txt"@,
            "--no-timestamps"@,
        ]);
        match &config.language {
            Some(lang) => {
                if !crate::text::str_is_blank(lang.as_str()) {
                    args.push(owned("-l"));
                    args.push(trim_string(lang.as_str()));
                    assert(crate::text::string_views(args@) =~= base + seq!["-l"@, trim(lang@)]);
                }
            },
            None => {},
        }
        args
    }

    /// Before the run: the arguments to run the binary with, or why not to run it.
    pub fn prepare(&self, request: &TranscriptionRequest, probes: WhisperProbes) -> (r: Result<
        Vec<String>,
        String,
    >)
        ensures
            match whisper_preflight_error(self.config, *request, probes) {
                Some(m) => r matches Err(e) && e@ == m,
                None => r matches Ok(a) && crate::text::string_views(a@) == whisper_args(
                    request.audio_file_path@,
                    self.config,
                ),
            },
    {
        match self.config.validate(
            probes.binary_exists,
            probes.binary_is_file,
            probes.model_exists,
            probes.model_is_file,
        ) {
            Err(e) => return Err(e),
            Ok(()) => {},
        }
        if !probes.audio_exists {
            return Err(
                String::from_str("Audio file not found: ").concat(
                    request.audio_file_path.as_str(),
                ).concat(". Record audio first."),
            );
        }
        Ok(Self::build_args(request.audio_file_path.as_str(), &self.config))
    }

    /// After the run: the transcript, or why there is none.
    pub fn finish(
        &self,
        request: &TranscriptionRequest,
        run: ProcessRun,
        duration_ms: u64,
        created_at: String,
    ) -> (r: Result<TranscriptionResult, String>)
        ensures
            whisper_run_outcome(self.config, *request, run, duration_ms, created_at, r),
    {
        match run {
            ProcessRun::SpawnFailed { error } => {
                Err(
                    String::from_str("Failed to run whisper binary '").concat(
                        self.config.binary_path.as_str(),
                    ).concat("': ").concat(error.as_str()).concat(
                        ". Is whisper.cpp installed and in your PATH?",
                    ),
                )
            },
            ProcessRun::Finished { success, exit_code, stdout, stderr } => {
                if !success {
                    let code: i32 = match exit_code {
                        Some(x) => x,
                        None => -1,
                    };
                    let mut out = crate::text::chars_of("Whisper process exited with code ");
                    push_i64(&mut out, code as i64);
                    crate::text::append_str(&mut out, ". Error: ");
                    let t = trim_string(stderr.as_str());
                    crate::text::append_str(&mut out, t.as_str());
                    return Err(string_of(&out));
                }
                let raw_text = trim_string(stdout.as_str());
                if raw_text.as_str().is_empty() {
                    let t = trim_string(stderr.as_str());
                    return Err(
                        String::from_str(
                            "Whisper produced no output. The audio may be silent or too short. Details: ",
                        ).concat(t.as_str()),
                    );
                }
                let model_name = match file_name_of(self.config.model_path.as_str()) {
                    Some(n) => n,
                    None => owned("unknown"),
                };
                let engine_name = String::from_str("Local Whisper (").concat(
                    model_name.as_str(),
                ).concat(")");
                Ok(
                    TranscriptionResult {
                        raw_text,
                        engine_name,
                        engine_kind: EngineKind::LocalWhisper,
                        audio_file_path: request.audio_file_path.clone(),
                        duration_ms,
                        is_mock: false,
                        created_at,
                        error: None,
                    },
                )
            },
        }
    }
}

} // verus!
