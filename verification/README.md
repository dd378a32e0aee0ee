# media_plugins

The logic of a set of GStreamer plugins, verified with Verus: format conversion, tone mapping,
clipping, drawing with Skia, pooled decoding pipelines, timelines inside timelines, snapshots of
pipelines, and checks for test scenarios.

- `src/` is the library. It works on plain values: formats and frames as integers and bytes,
  objects of GStreamer as numbers. Every function states what it returns and changes; laws that
  span several calls are proof functions whose names start with `law_`.
- `app/` is the GStreamer side: elements, pads, buffers, files, signals and everything that
  computes with floating-point numbers. It asks the library what to do.
- `tests/` runs the library on concrete values, with the crates that it calls.

| Module | What it decides |
| --- | --- |
| `videoconverter` | which conversions between RGB and YUV are supported, and how a frame is converted |
| `yuvops` | the calls into the `yuv` crate |
| `rsvideoconvert` | which format is negotiated |
| `tonemap` | when HDR video is mapped to SDR, and which bytes change |
| `segmentclipper` | which buffers are dropped, passed on or pushed at the end |
| `skia` | backgrounds, sizes and edges |
| `uridecodepool`, `playbinpool` | how pipelines are pooled, sought and read from |
| `ges` | how replicas of a timeline follow their primary |
| `pipeline_snapshot` | where graphs are written, and which are removed |
| `validate`, `actions` | the actions of scenarios, QR codes and image comparison |

What the outside crates do is stated in the contracts of the functions marked
`#[verifier::external_body]`; those contracts are believed, not proved.
