# wlgif

Records a region of a Wayland screen as a GIF: select a region (or give
`--geometry WxH+X+Y`), record it with wf-recorder, convert it with ffmpeg.

The library in `src/` holds the logic, verified with Verus:

- `text`: characters, `split`/`split_whitespace`/`trim` as std defines them,
  decimal printing and `u32` parsing, with the lemmas that relate them.
- `region`: reading slurp's `X,Y WxH` and the `WxH+X+Y` geometry, writing
  wf-recorder's `-g` argument; both round trips are proved.
- `converter`: the ffmpeg runs that turn the video into a GIF, and what
  each run's exit means for the conversion.
- `output`: the size shown in the final summary, in exact integer arithmetic.
- `backend`: choosing a backend (by name, or auto-detected preferring the
  portal), which programs each needs and which is missing, the wf-recorder
  arguments and the decisions of its recording loop; `backend::xdg_portal`
  the portal's GStreamer pipeline, elements and bus loop.
- `options`: checking the output name and choosing where the region comes from.
- `overlay`: the layout and frame of the recording overlay.

`app/` is the program around it: argument parsing, printing, and running
slurp, wf-recorder and ffmpeg.

The portal backend's decisions are in the library, but the program built
here links neither GStreamer nor the portal client: it reports the portal's
GStreamer elements as missing, so it records through the wlroots backend
only.
