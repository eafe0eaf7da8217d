# silence_remover

A command-line tool that cuts the silence out of a recording with FFmpeg and, on
request, turns the cleaned speech into text with the Groq Whisper service and
has the text edited by DeepSeek.

`src/` is the verified core. It reads the command line, leads the dialogue with
a user who gave no arguments, decides how FFmpeg is found or downloaded, builds
every call to an outside program, reads every reply, and steers the work from
the first measurement to the saved text. Each module keeps its spec functions,
the functions that are proved against them, and its laws.

| module | what it is about |
|--------|------------------|
| `text` | searching, replacing and trimming text |
| `paths`, `output` | file names, typed paths, where the result goes |
| `format`, `config` | audio formats, presets, the settings of a run |
| `cli`, `dialog`, `usage` | arguments, dialogue, manual |
| `setup` | getting hold of FFmpeg |
| `tools`, `media` | outside programs; FFmpeg and ffprobe |
| `speech`, `editor` | the two services: requests and replies |
| `job` | the work on one recording |

`app/` is the program around it: processes, files, the console, and the
arithmetic on floating-point numbers. `tests/` runs the core.
