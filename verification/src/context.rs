//! What the gateway knows of the project it is used in: the workspace's
//! settings and the text that tells a model about it. Reading the project
//! and its stores is the caller's part.

use vstd::prelude::*;
use crate::text::{decimal, decimal_string};

verus! {

/// One stretch of interaction, as the history keeps it.
#[derive(Debug, Clone)]
pub struct Session {
    pub id: i64,
    pub session_uuid: String,
    pub started_at: String,
    pub ended_at: Option<String>,
    pub branch: String,
    pub last_commit: String,
    /// The open files, as a JSON array.
    pub files_open: String,
    pub summary: Option<String>,
}

/// One request within a session, as the history keeps it.
#[derive(Debug, Clone)]
pub struct Query {
    pub id: i64,
    pub session_id: i64,
    pub timestamp: String,
    pub task_type: String,
    pub prompt: String,
    pub model_used: String,
    pub provider: String,
    pub tokens_in: i64,
    pub tokens_out: i64,
    /// Micro-dollars.
    pub cost_usd: u64,
    pub latency_ms: i64,
    pub result_summary: Option<String>,
}

/// A piece of a source file, as the embedding store keeps it.
#[derive(Debug, Clone)]
pub struct CodeChunk {
    pub id: i64,
    pub file_path: String,
    pub chunk_index: usize,
    pub content: String,
    pub language: String,
    pub git_commit: String,
    /// The components of the embedding, each the bit pattern of a
    /// single-precision value.
    pub embedding: Option<Vec<u32>>,
    pub last_updated: String,
}

/// The settings of a workspace.
#[derive(Debug, Clone)]
pub struct WorkspaceConfig {
    pub project: ProjectInfo,
    pub ai: AIConfig,
    pub dependencies: Dependencies,
    pub git: GitContext,
    pub embeddings: EmbeddingsInfo,
    pub environment: EnvironmentConfig,
    pub usage: UsageStats,
}

/// Name, kind and root of the project.
#[derive(Debug, Clone)]
pub struct ProjectInfo {
    pub name: String,
    pub project_type: String,
    pub root: String,
}

/// Which model and provider the project uses.
#[derive(Debug, Clone)]
pub struct AIConfig {
    pub last_model: String,
    pub context_profile: Vec<String>,
    pub preferred_provider: String,
}

/// What the project depends on, by ecosystem.
#[derive(Debug, Clone)]
pub struct Dependencies {
    pub rust: Option<RustDeps>,
    pub python: Option<PythonDeps>,
    pub node: Option<NodeDeps>,
    pub docker: Option<DockerDeps>,
}

/// The Rust toolchain and manifest of the project.
#[derive(Debug, Clone)]
pub struct RustDeps {
    pub toolchain: String,
    pub cargo_toml: String,
}

/// The Python version and requirements of the project.
#[derive(Debug, Clone)]
pub struct PythonDeps {
    pub version: String,
    pub requirements: String,
}

/// The Node version and manifest of the project.
#[derive(Debug, Clone)]
pub struct NodeDeps {
    pub version: String,
    pub package_json: String,
}

/// The compose file of the project.
#[derive(Debug, Clone)]
pub struct DockerDeps {
    pub compose: String,
}

/// Where the project stands in its history.
#[derive(Debug, Clone)]
pub struct GitContext {
    pub last_commit: String,
    pub current_branch: String,
    pub recent_changes: RecentChanges,
}

/// What was changed of late.
#[derive(Debug, Clone)]
pub struct RecentChanges {
    pub files_modified: usize,
    pub focus_areas: Vec<String>,
}

/// What is known of the project's embedding index.
#[derive(Debug, Clone)]
pub struct EmbeddingsInfo {
    pub last_indexed: String,
    pub total_chunks: usize,
    pub model: String,
    pub index_file: String,
}

/// The environment that the project is worked on in.
#[derive(Debug, Clone)]
pub struct EnvironmentConfig {
    pub auto_activate: bool,
    pub venv: Option<String>,
    pub node_version: Option<String>,
    pub zig_version: Option<String>,
    pub rust_toolchain: Option<String>,
}

/// How much the project has asked of the gateway.
#[derive(Debug, Clone)]
pub struct UsageStats {
    pub total_queries: usize,
    /// Micro-dollars.
    pub cost_this_month: u64,
    pub preferred_tasks: Vec<String>,
}

/// Which of the files that tell a project's kind stand in its root.
#[derive(Debug, Clone, Copy, PartialEq, Eq, Structural)]
pub struct ProjectFiles {
    pub cargo_toml: bool,
    pub package_json: bool,
    pub requirements_txt: bool,
    pub pyproject_toml: bool,
    pub build_zig: bool,
    pub go_mod: bool,
    pub docker_compose: bool,
}

/// The kind of a project, by the first of the telling files that it has.
pub open spec fn project_kind(files: ProjectFiles) -> Seq<char> {
    if files.cargo_toml {
        "rust"@
    } else if files.package_json {
        "node"@
    } else if files.requirements_txt || files.pyproject_toml {
        "python"@
    } else if files.build_zig {
        "zig"@
    } else if files.go_mod {
        "go"@
    } else {
        "unknown"@
    }
}

/// The texts joined by a comma and a space.
pub open spec fn comma_joined(items: Seq<String>) -> Seq<char>
    decreases items.len(),
{
    if items.len() == 0 {
        seq![]
    } else if items.len() == 1 {
        items[0]@
    } else {
        comma_joined(items.drop_last()) + ", "@ + items.last()@
    }
}

/// What tells a model about a chunk: its place, and its content in a code fence.
pub open spec fn chunk_text(place: nat, chunk: CodeChunk) -> Seq<char> {
    "\n["@ + decimal(place) + "] "@ + chunk.file_path@ + ": Line "@ + decimal(
        chunk.chunk_index as nat,
    ) + "\n```"@ + chunk.language@ + "\n"@ + chunk.content@ + "\n```\n"@
}

/// What tells a model about the first `n` of the chunks.
pub open spec fn chunks_text(chunks: Seq<CodeChunk>, n: nat) -> Seq<char>
    decreases n,
{
    if n == 0 || n > chunks.len() {
        seq![]
    } else {
        chunks_text(chunks, (n - 1) as nat) + chunk_text(n, chunks[n - 1])
    }
}

/// A project and its settings.
#[derive(Debug, Clone)]
pub struct Workspace {
    pub root: String,
    pub config: WorkspaceConfig,
}

impl Workspace {
    /// What tells a model about the workspace: the project, the branch and
    /// the last commit; the recent changes where files were modified; and
    /// the chunks that were found relevant, where there are any.
    pub open spec fn context_text(self, chunks: Seq<CodeChunk>) -> Seq<char> {
        "Project: "@ + self.config.project.name@ + " ("@ + self.config.project.project_type@ + ")\n"@
            + "Branch: "@ + self.config.git.current_branch@ + "\n"@ + "Last commit: "@
            + self.config.git.last_commit@ + "\n"@ + (if self.config.git.recent_changes.files_modified
            > 0 {
            "\nRecent changes: "@ + decimal(self.config.git.recent_changes.files_modified as nat)
                + " files modified\n"@ + (if self.config.git.recent_changes.focus_areas@.len() > 0 {
                "Focus areas: "@ + comma_joined(self.config.git.recent_changes.focus_areas@) + "\n"@
            } else {
                Seq::<char>::empty()
            })
        } else {
            Seq::<char>::empty()
        }) + (if chunks.len() > 0 {
            "\n=== Relevant Code Context ===\n"@ + chunks_text(chunks, chunks.len())
        } else {
            Seq::<char>::empty()
        })
    }

    /// Computes [`project_kind`].
    pub fn detect_project_type(files: &ProjectFiles) -> (kind: String)
        ensures
            kind@ == project_kind(*files),
    {
        if files.cargo_toml {
            String::from_str("rust")
        } else if files.package_json {
            String::from_str("node")
        } else if files.requirements_txt || files.pyproject_toml {
            String::from_str("python")
        } else if files.build_zig {
            String::from_str("zig")
        } else if files.go_mod {
            String::from_str("go")
        } else {
            String::from_str("unknown")
        }
    }

    /// The dependencies that the files of a project tell of.
    pub fn detect_dependencies(files: &ProjectFiles) -> (deps: Dependencies)
        ensures
            deps.rust is Some <==> files.cargo_toml,
            deps.rust matches Some(r) ==> r.toolchain@ == "stable"@ && r.cargo_toml@ == "Cargo.toml"@,
            deps.node is Some <==> files.package_json,
            deps.node matches Some(n) ==> n.version@ == "18.0.0"@ && n.package_json@
                == "package.json"@,
            deps.python is Some <==> files.requirements_txt,
            deps.python matches Some(p) ==> p.version@ == "3.11"@ && p.requirements@
                == "requirements.txt"@,
            deps.docker is Some <==> files.docker_compose,
            deps.docker matches Some(d) ==> d.compose@ == "docker-compose.yml"@,
    {
        Dependencies {
            rust: if files.cargo_toml {
                Some(
                    RustDeps {
                        toolchain: String::from_str("stable"),
                        cargo_toml: String::from_str("Cargo.toml"),
                    },
                )
            } else {
                None
            },
            python: if files.requirements_txt {
                Some(
                    PythonDeps {
                        version: String::from_str("3.11"),
                        requirements: String::from_str("requirements.txt"),
                    },
                )
            } else {
                None
            },
            node: if files.package_json {
                Some(
                    NodeDeps {
                        version: String::from_str("18.0.0"),
                        package_json: String::from_str("package.json"),
                    },
                )
            } else {
                None
            },
            docker: if files.docker_compose {
                Some(DockerDeps { compose: String::from_str("docker-compose.yml") })
            } else {
                None
            },
        }
    }

    /// Computes [`Workspace::context_text`].
    pub fn build_context(&self, chunks: &Vec<CodeChunk>) -> (text: String)
        ensures
            text@ == self.context_text(chunks@),
    {
        let mut text = String::from_str("Project: ");
        text.append(self.config.project.name.as_str());
        text.append(" (");
        text.append(self.config.project.project_type.as_str());
        text.append(")\n");
        text.append("Branch: ");
        text.append(self.config.git.current_branch.as_str());
        text.append("\n");
        text.append("Last commit: ");
        text.append(self.config.git.last_commit.as_str());
        text.append("\n");
        let ghost head = text@;
        let changes = &self.config.git.recent_changes;
        if changes.files_modified > 0 {
            text.append("\nRecent changes: ");
            text.append(decimal_string(changes.files_modified as u64).as_str());
            text.append(" files modified\n");
            if changes.focus_areas.len() > 0 {
                text.append("Focus areas: ");
                let mut joined = String::new();
                let mut i: usize = 0;
                assert(changes.focus_areas@.take(0).len() == 0);
                while i < changes.focus_areas.len()
                    invariant
                        i <= changes.focus_areas@.len(),
                        joined@ == comma_joined(changes.focus_areas@.take(i as int)),
                    decreases changes.focus_areas@.len() - i,
                {
                    proof {
                        assert(changes.focus_areas@.take(i + 1).drop_last() =~= changes.focus_areas@.take(
                            i as int,
                        ));
                    }
                    if i > 0 {
                        joined.append(", ");
                    }
                    joined.append(changes.focus_areas[i].as_str());
                    proof {
                        if i == 0 {
                            assert(joined@ =~= changes.focus_areas@[0]@);
                        }
                    }
                    i += 1;
                }
                assert(changes.focus_areas@.take(i as int) =~= changes.focus_areas@);
                text.append(joined.as_str());
                text.append("\n");
            }
        }
        let ghost middle = text@;
        if chunks.len() > 0 {
            text.append("\n=== Relevant Code Context ===\n");
            let ghost opened = text@;
            let mut i: usize = 0;
            while i < chunks.len()
                invariant
                    i <= chunks@.len(),
                    text@ =~= opened + chunks_text(chunks@, i as nat),
                decreases chunks@.len() - i,
            {
                let chunk = &chunks[i];
                let ghost before = text@;
                text.append("\n[");
                text.append(decimal_string((i as u64) + 1).as_str());
                text.append("] ");
                text.append(chunk.file_path.as_str());
                text.append(": Line ");
                text.append(decimal_string(chunk.chunk_index as u64).as_str());
                text.append("\n```");
                text.append(chunk.language.as_str());
                text.append("\n");
                text.append(chunk.content.as_str());
                text.append("\n```\n");
                assert(text@ =~= before + chunk_text((i + 1) as nat, chunks@[i as int]));
                i += 1;
            }
        }
        assert(text@ =~= self.context_text(chunks@));
        text
    }
}

/// The workspace that is loaded, if any.
pub struct ContextManager {
    pub workspace: Option<Workspace>,
}

impl ContextManager {
    /// A manager with no workspace loaded.
    pub fn new() -> (m: Self)
        ensures
            m.workspace is None,
    {
        ContextManager { workspace: None }
    }

    /// Takes a workspace in.
    pub fn load_workspace(&mut self, workspace: Workspace)
        ensures
            final(self).workspace == Some(workspace),
    {
        self.workspace = Some(workspace);
    }

    /// The workspace that is loaded.
    pub fn workspace(&self) -> (w: Option<&Workspace>)
        ensures
            match (w, self.workspace) {
                (Some(a), Some(b)) => *a == b,
                (None, None) => true,
                _ => false,
            },
    {
        self.workspace.as_ref()
    }

    /// What tells a model about the loaded workspace; nothing where none
    /// is loaded.
    pub fn build_context(&self, chunks: &Vec<CodeChunk>) -> (text: String)
        ensures
            text@ == match self.workspace {
                Some(w) => w.context_text(chunks@),
                None => Seq::<char>::empty(),
            },
    {
        match &self.workspace {
            Some(w) => w.build_context(chunks),
            None => String::new(),
        }
    }
}

impl Default for ContextManager {
    fn default() -> (m: Self)
        ensures
            m.workspace is None,
    {
        Self::new()
    }
}

} // verus!
